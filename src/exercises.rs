//! Small string exercises.
use unicode_segmentation::UnicodeSegmentation;
use vstd::prelude::*;
use vstd::string::*;

verus! {

/// How one character is written in the output: a space as `%20`, anything else as itself.
pub open spec fn encoded(c: char) -> Seq<char> {
    if c == ' ' {
        seq!['%', '2', '0']
    } else {
        seq![c]
    }
}

/// `s` with every space replaced by `%20`.
pub open spec fn urlified(s: Seq<char>) -> Seq<char>
    decreases s.len(),
{
    if s.len() == 0 {
        Seq::empty()
    } else {
        urlified(s.drop_last()) + encoded(s.last())
    }
}

/// Encoding distributes over concatenation.
pub proof fn lemma_urlified_concat(a: Seq<char>, b: Seq<char>)
    ensures
        urlified(a + b) == urlified(a) + urlified(b),
    decreases b.len(),
{
    if b.len() == 0 {
        assert(a + b =~= a);
        assert(urlified(b) =~= Seq::<char>::empty());
        assert(urlified(a) + urlified(b) =~= urlified(a));
    } else {
        assert((a + b).drop_last() =~= a + b.drop_last());
        lemma_urlified_concat(a, b.drop_last());
        assert((a + b).last() == b.last());
        assert(urlified(a + b) =~= urlified(a) + urlified(b));
    }
}

/// Encoding never shortens its input.
pub proof fn lemma_urlified_len(s: Seq<char>)
    ensures
        urlified(s).len() >= s.len(),
    decreases s.len(),
{
    if s.len() > 0 {
        lemma_urlified_len(s.drop_last());
    }
}

/// Replaces each space among the first `length` characters of `s` with `%20`,
/// in place, and returns the length of the result, which then fills the front
/// of `s`. The characters after `length` are scratch room: there must be enough
/// of them to hold the longer result. Nothing is done and 0 is returned when
/// `length` is 0 or exceeds `s.len()`.
pub fn urlify(s: &mut [char], length: usize) -> (r: usize)
    requires
        0 < length <= old(s)@.len() ==> urlified(old(s)@.subrange(0, length as int)).len()
            <= old(s)@.len(),
    ensures
        final(s)@.len() == old(s)@.len(),
        length == 0 || old(s)@.len() < length ==> r == 0 && final(s)@ == old(s)@,
        0 < length <= old(s)@.len() ==> {
            let u = urlified(old(s)@.subrange(0, length as int));
            &&& r == u.len()
            &&& final(s)@.subrange(0, r as int) == u
        },
{
    let n = s.len();
    if length == 0 || n < length {
        return 0;
    }
    let ghost s0 = s@;
    let ghost total = urlified(s0.subrange(0, length as int)).len();
    // The encoded tail is built backwards in s[end..n].
    let mut end: usize = n;
    let mut i: usize = length;
    proof {
        assert(s0.subrange(length as int, length as int) =~= Seq::<char>::empty());
        assert(s@.subrange(n as int, n as int) =~= Seq::<char>::empty());
    }
    while i > 0
        invariant
            0 <= i <= length <= n,
            n == s@.len(),
            s0.len() == n,
            total == urlified(s0.subrange(0, length as int)).len(),
            total <= n,
            end + urlified(s0.subrange(i as int, length as int)).len() == n,
            i <= end <= n,
            forall|j: int| 0 <= j < i ==> s@[j] == s0[j],
            s@.subrange(end as int, n as int) == urlified(s0.subrange(i as int, length as int)),
        decreases i,
    {
        let c = s[i - 1];
        let ghost tail = s@.subrange(end as int, n as int);
        proof {
            let pre = s0.subrange(0, i - 1);
            let one = s0.subrange(i - 1, i as int);
            let rest = s0.subrange(i as int, length as int);
            assert(s0.subrange(i - 1, length as int) =~= one + rest);
            lemma_urlified_concat(one, rest);
            assert(one.drop_last() =~= Seq::<char>::empty());
            assert(one.last() == c);
            assert(urlified(one.drop_last()) =~= Seq::<char>::empty());
            assert(urlified(one) =~= encoded(c));
            assert(s0.subrange(0, length as int) =~= pre + s0.subrange(i - 1, length as int));
            lemma_urlified_concat(pre, s0.subrange(i - 1, length as int));
            lemma_urlified_len(pre);
        }
        if c == ' ' {
            s[end - 1] = '0';
            s[end - 2] = '2';
            s[end - 3] = '%';
            end = end - 3;
        } else {
            s[end - 1] = c;
            end = end - 1;
        }
        i = i - 1;
        assert(s@.subrange(end as int, n as int) =~= encoded(c) + tail);
    }
    proof {
        assert(s0.subrange(0, length as int) =~= s0.subrange(i as int, length as int));
    }
    let ghost t = s@;
    // Move the result to the front.
    let len = n - end;
    let mut k: usize = 0;
    while k < len
        invariant
            0 <= k <= len,
            len + end == n,
            length <= n,
            n == s@.len(),
            s0.len() == n,
            t.len() == n,
            t.subrange(end as int, n as int) == urlified(s0.subrange(0, length as int)),
            forall|j: int| 0 <= j < k ==> s@[j] == t[j + end],
            forall|j: int| k <= j < n ==> s@[j] == t[j],
        decreases len - k,
    {
        s[k] = s[k + end];
        k = k + 1;
    }
    assert(s@.subrange(0, len as int) =~= t.subrange(end as int, n as int));
    len
}

/// The extended grapheme clusters of a text, in order.
pub uninterp spec fn graphemes_of(s: Seq<char>) -> Seq<Seq<char>>;

/// The whitespace-separated words of a text, in order.
pub uninterp spec fn words_of(s: Seq<char>) -> Seq<Seq<char>>;

/// Relies on `UnicodeSegmentation::graphemes(s, true)` from unicode-segmentation:
/// the extended grapheme clusters of `s`, which depend on the text alone.
#[verifier::external_body]
fn graphemes(s: &str) -> (r: Vec<String>)
    ensures
        r@.map_values(|g: String| g@) == graphemes_of(s@),
{
    s.graphemes(true).map(str::to_owned).collect()
}

/// Relies on `str::split_whitespace`: the words of `s` between runs of
/// whitespace, which depend on the text alone.
#[verifier::external_body]
fn split_words(s: &str) -> (r: Vec<String>)
    ensures
        r@.map_values(|w: String| w@) == words_of(s@),
{
    s.split_whitespace().map(str::to_owned).collect()
}

/// The vowels that keep a word whole in pig latin: Latin, Cyrillic and kana.
pub open spec fn is_vowel(c: char) -> bool {
    c == 'e' || c == 'u' || c == 'i' || c == 'o' || c == 'a' || c == 'у' || c == 'е' || c == 'ы'
        || c == 'а' || c == 'о' || c == 'я' || c == 'ё' || c == 'и' || c == 'あ' || c == 'い'
        || c == 'う' || c == 'え' || c == 'お'
}

/// The first character of a word, or a space for an empty one.
pub open spec fn first_char(w: Seq<char>) -> char {
    if w.len() > 0 {
        w[0]
    } else {
        ' '
    }
}

/// The parts joined in order.
pub open spec fn joined(parts: Seq<Seq<char>>) -> Seq<char>
    decreases parts.len(),
{
    if parts.len() == 0 {
        Seq::empty()
    } else {
        joined(parts.drop_last()) + parts.last()
    }
}

/// A word in pig latin, given its grapheme clusters: a word that starts with a
/// vowel gets `hay` appended; otherwise its first cluster moves to the end,
/// followed by `ay`.
pub open spec fn pig_word(word: Seq<char>, clusters: Seq<Seq<char>>) -> Seq<char> {
    if is_vowel(first_char(word)) {
        word + "hay"@
    } else if clusters.len() == 0 {
        "ay"@
    } else {
        joined(clusters.drop_first()) + clusters[0] + "ay"@
    }
}

/// Each word in pig latin, followed by a space.
pub open spec fn pig_text(words: Seq<Seq<char>>) -> Seq<char>
    decreases words.len(),
{
    if words.len() == 0 {
        Seq::empty()
    } else {
        pig_text(words.drop_last()) + pig_word(words.last(), graphemes_of(words.last())) + seq![
            ' ',
        ]
    }
}

fn is_vowel_char(c: char) -> (r: bool)
    ensures
        r == is_vowel(c),
{
    c == 'e' || c == 'u' || c == 'i' || c == 'o' || c == 'a' || c == 'у' || c == 'е' || c == 'ы'
        || c == 'а' || c == 'о' || c == 'я' || c == 'ё' || c == 'и' || c == 'あ' || c == 'い'
        || c == 'う' || c == 'え' || c == 'お'
}

/// `word` in pig latin, where `clusters` are its grapheme clusters.
pub fn pig_latin_word(word: &str, clusters: &Vec<String>) -> (r: String)
    ensures
        r@ == pig_word(word@, clusters@.map_values(|g: String| g@)),
{
    let ghost parts = clusters@.map_values(|g: String| g@);
    let first = if word.unicode_len() > 0 {
        word.get_char(0)
    } else {
        ' '
    };
    if is_vowel_char(first) {
        let mut r = word.to_owned();
        r.append("hay");
        r
    } else if clusters.len() == 0 {
        "ay".to_owned()
    } else {
        let mut r = String::new();
        let mut i: usize = 1;
        while i < clusters.len()
            invariant
                1 <= i <= clusters@.len(),
                parts == clusters@.map_values(|g: String| g@),
                r@ == joined(parts.subrange(1, i as int)),
            decreases clusters@.len() - i,
        {
            proof {
                assert(parts.subrange(1, i + 1).drop_last() =~= parts.subrange(1, i as int));
            }
            r.append(clusters[i].as_str());
            i = i + 1;
        }
        proof {
            assert(parts.subrange(1, parts.len() as int) =~= parts.drop_first());
        }
        r.append(clusters[0].as_str());
        r.append("ay");
        r
    }
}

/// `txt` in pig latin: each word converted by `pig_word`, followed by a space.
pub fn to_pig_latin(txt: &str) -> (r: String)
    ensures
        r@ == pig_text(words_of(txt@)),
{
    let words = split_words(txt);
    let ghost ws = words@.map_values(|w: String| w@);
    let mut result = String::new();
    let mut i: usize = 0;
    while i < words.len()
        invariant
            i <= words@.len(),
            ws == words@.map_values(|w: String| w@),
            ws == words_of(txt@),
            result@ == pig_text(ws.subrange(0, i as int)),
        decreases words@.len() - i,
    {
        let word = words[i].as_str();
        let clusters = graphemes(word);
        let converted = pig_latin_word(word, &clusters);
        proof {
            assert(ws.subrange(0, i + 1).drop_last() =~= ws.subrange(0, i as int));
            assert(ws.subrange(0, i + 1).last() == word@);
        }
        result.append(converted.as_str());
        result.append(" ");
        proof {
            reveal_strlit(" ");
        }
        i = i + 1;
    }
    proof {
        assert(ws.subrange(0, words@.len() as int) =~= ws);
    }
    result
}

} // verus!
