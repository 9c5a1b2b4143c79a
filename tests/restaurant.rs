use myrust::summary::{create_summarizable, NewsArticle, Summary, Twit, Vk};
use myrust::{add_to_waitlist, eat_at_restaurant, seat_at_table, Appetizer, Breakfast};

#[test]
fn summer_breakfast_keeps_toast() {
    let meal = Breakfast::summer("Rye");
    assert_eq!(meal.toasts, "Rye");
    assert_eq!(format!("{:?}", meal), "Breakfast { toasts: \"Rye\", seasonal_fruit: \"peaches\" }");
}

#[test]
fn restaurant_visit_orders_wheat() {
    add_to_waitlist();
    seat_at_table();
    let meal = eat_at_restaurant();
    assert_eq!(meal.toasts, "Wheat");
    assert_eq!(format!("{:?}", meal), "Breakfast { toasts: \"Wheat\", seasonal_fruit: \"peaches\" }");
    let _starter = Appetizer::Salad;
}

#[test]
fn summaries() {
    let a = NewsArticle {
        author: "Jhon Doe".to_string(),
        headline: "Smoking harm".to_string(),
        content: "blah blah blah".to_string(),
    };
    assert_eq!(a.summarize(), "Summary: Jhon Doe: blah blah blah");
    assert_eq!(a.summarize_author(), "Jhon Doe");
    let t = Twit {
        username: "aksj2ds".to_string(),
        content: "la la la la".to_string(),
        replay: false,
        retwit: false,
    };
    assert_eq!(t.summarize_author(), "@aksj2ds");
    let v = Vk { login: "ololosha".to_string(), message: "some text".to_string() };
    assert_eq!(v.summarize(), "Read more... by author ololosha");
}

#[test]
fn sample_post_summary() {
    let s = create_summarizable();
    assert_eq!(s.summarize(), "Summary: aksj2ds: la la la la");
    assert_eq!(s.summarize_author(), "@aksj2ds");
}
