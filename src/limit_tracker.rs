//! Tracks a value against a quota and warns through a messenger as it nears it.
use vstd::prelude::*;

verus! {

/// Something that can deliver a message; implemented by the tracker's users.
pub trait Messenger {
    fn send(&self, msg: &str);
}

/// How close a value has come to its quota.
#[derive(Debug, Clone, Copy, PartialEq, Eq, Structural)]
pub enum QuotaAlert {
    /// At or over the quota.
    Over,
    /// At 90% of the quota or more.
    Urgent,
    /// At 75% of the quota or more.
    Warning,
}

/// The alert for `value` against the quota `max`, comparing the ratio
/// `value / max` with 1, 0.9 and 0.75. A quota of 0 is exceeded by any
/// positive value and never by 0, whose ratio is undefined.
pub open spec fn alert_for(value: int, max: int) -> Option<QuotaAlert> {
    if value >= max && value > 0 {
        Some(QuotaAlert::Over)
    } else if max > 0 && 10 * value >= 9 * max {
        Some(QuotaAlert::Urgent)
    } else if max > 0 && 4 * value >= 3 * max {
        Some(QuotaAlert::Warning)
    } else {
        None
    }
}

impl QuotaAlert {
    /// The text sent for this alert.
    pub fn message(&self) -> (r: &'static str)
        ensures
            *self == QuotaAlert::Over ==> r@ == "Error: You are over your quota!"@,
            *self == QuotaAlert::Urgent ==> r@
                == "Urgent warning: You've used up over 90% of your quota!"@,
            *self == QuotaAlert::Warning ==> r@
                == "Warning: You've used up over 75% of your quota!"@,
    {
        match self {
            QuotaAlert::Over => "Error: You are over your quota!",
            QuotaAlert::Urgent => "Urgent warning: You've used up over 90% of your quota!",
            QuotaAlert::Warning => "Warning: You've used up over 75% of your quota!",
        }
    }
}

/// The alert, if any, that `value` raises against the quota `max`.
pub fn quota_alert(value: usize, max: usize) -> (r: Option<QuotaAlert>)
    ensures
        r == alert_for(value as int, max as int),
{
    let v = value as u128;
    let m = max as u128;
    if v >= m && v > 0 {
        Some(QuotaAlert::Over)
    } else if m > 0 && 10 * v >= 9 * m {
        Some(QuotaAlert::Urgent)
    } else if m > 0 && 4 * v >= 3 * m {
        Some(QuotaAlert::Warning)
    } else {
        None
    }
}

/// Holds a value and its quota, and reports through `messenger` each time a
/// new value comes near the quota.
pub struct LimitTracker<'a, T: Messenger> {
    messenger: &'a T,
    value: usize,
    max: usize,
}

impl<'a, T: Messenger> LimitTracker<'a, T> {
    /// The current value.
    pub closed spec fn value(&self) -> usize {
        self.value
    }

    /// The quota.
    pub closed spec fn max(&self) -> usize {
        self.max
    }

    /// The messenger that alerts go to.
    pub closed spec fn messenger(&self) -> &'a T {
        self.messenger
    }

    /// A tracker at value 0 against the quota `max`.
    pub fn new(messenger: &'a T, max: usize) -> (r: LimitTracker<'a, T>)
        ensures
            r.value() == 0,
            r.max() == max,
            r.messenger() == messenger,
    {
        LimitTracker { messenger, value: 0, max }
    }

    /// Records `value` and, when it raises an alert (see `quota_alert`),
    /// sends that alert's message once.
    pub fn set_value(&mut self, value: usize)
        ensures
            final(self).value() == value,
            final(self).max() == old(self).max(),
            final(self).messenger() == old(self).messenger(),
    {
        self.value = value;
        match quota_alert(self.value, self.max) {
            Some(alert) => self.messenger.send(alert.message()),
            None => {},
        }
    }
}

} // verus!
