//! The user model that the service stores and hands out.

use vstd::prelude::*;
use vstd::string::StringExecFns;

verus! {

/// `std::time::SystemTime`, carried through opaquely as the start of a trial.
#[verifier::external_type_specification]
#[verifier::external_body]
pub struct ExSystemTime(std::time::SystemTime);

/// A pet of a user.
#[derive(Clone, Debug, PartialEq)]
pub struct UserPet {
    pub name: String,
    /// The pet's height in meters, held as the bits of an IEEE 754 single
    /// (what `f32::to_bits` gives), so that it is stored and compared exactly.
    pub height_in_meters_bits: u32,
    pub picture: String,
}

/// When a trial subscription started.
#[derive(Clone, Copy, Debug, PartialEq)]
pub struct SubscriptionTrial {
    pub start_time: std::time::SystemTime,
}

/// The subscription of a user. `Unknown` is the default, and what a value
/// that this version does not know is read as.
#[derive(Clone, Copy, Debug, PartialEq)]
pub enum SubscriptionStatus {
    Unknown,
    Free,
    Premium,
    Trial(SubscriptionTrial),
}

/// A user of the service, keyed by `user_id`.
#[derive(Clone, Debug, PartialEq)]
pub struct User {
    pub user_id: i32,
    pub name: String,
    pub quote: String,
    pub pets: Vec<UserPet>,
    pub subscription_status: SubscriptionStatus,
}

impl User {
    /// The default user: every field at its zero value, the subscription unknown.
    pub open spec fn is_default(self) -> bool {
        &&& self.user_id == 0
        &&& self.name@ == Seq::<char>::empty()
        &&& self.quote@ == Seq::<char>::empty()
        &&& self.pets@ == Seq::<UserPet>::empty()
        &&& self.subscription_status is Unknown
    }
}

impl Default for SubscriptionStatus {
    fn default() -> (status: Self)
        ensures
            status is Unknown,
    {
        SubscriptionStatus::Unknown
    }
}

impl Default for User {
    fn default() -> (user: Self)
        ensures
            user.is_default(),
    {
        User {
            user_id: 0,
            name: String::new(),
            quote: String::new(),
            pets: Vec::new(),
            subscription_status: SubscriptionStatus::Unknown,
        }
    }
}

/// The `Debug` rendering of a point in time, by `format!("{:?}", ..)` on a
/// `std::time::SystemTime`.
///
/// Trusted, with nothing stated of the text: std renders it differently on
/// different platforms.
#[verifier::external_body]
fn time_debug_text(time: &std::time::SystemTime) -> String {
    format!("{:?}", time)
}

/// The prefix of the text that describes a trial.
pub open spec fn trial_prefix() -> Seq<char> {
    "On trial since "@
}

/// The text that describes a subscription, as one line for a person to read.
pub open spec fn info_text_of(status: SubscriptionStatus) -> Option<Seq<char>> {
    match status {
        SubscriptionStatus::Free => Some("Free user"@),
        SubscriptionStatus::Premium => Some("Premium user"@),
        SubscriptionStatus::Unknown => Some("Unknown subscription status"@),
        SubscriptionStatus::Trial(_) => None,
    }
}

/// The text that describes a trial whose start time renders as `time_text`:
/// "On trial since " followed by that rendering.
pub fn trial_info_text(time_text: &str) -> (text: String)
    ensures
        text@ == trial_prefix() + time_text@,
{
    proof {
        reveal_strlit("On trial since ");
    }
    let mut text = "On trial since ".to_owned();
    text.append(time_text);
    text
}

/// Describes a subscription in one line. A trial reads "On trial since "
/// followed by the `Debug` rendering of its start time.
pub fn info_text(status: &SubscriptionStatus) -> (text: String)
    ensures
        match info_text_of(*status) {
            Some(fixed) => text@ == fixed,
            None => trial_prefix().len() <= text@.len() && text@.take(
                trial_prefix().len() as int,
            ) == trial_prefix(),
        },
{
    proof {
        reveal_strlit("Free user");
        reveal_strlit("Premium user");
        reveal_strlit("Unknown subscription status");
    }
    match status {
        SubscriptionStatus::Free => "Free user".to_owned(),
        SubscriptionStatus::Premium => "Premium user".to_owned(),
        SubscriptionStatus::Unknown => "Unknown subscription status".to_owned(),
        SubscriptionStatus::Trial(trial) => {
            let time = time_debug_text(&trial.start_time);
            let text = trial_info_text(time.as_str());
            assert(text@.take(trial_prefix().len() as int) =~= trial_prefix());
            text
        },
    }
}

} // verus!
