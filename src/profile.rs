use vstd::prelude::*;
use vstd::string::*;

verus! {

/// Which of the two complete configurations is built.
#[derive(Clone, Copy, Debug, PartialEq, Eq, Structural)]
pub enum Profile {
    /// The shipped firmware library with every driver and application module.
    Production,
    /// The unit-test harness with mocked hardware drivers.
    Test,
}

/// Exactly `"test"` selects the test harness; anything else, absence included, is a
/// production build.
pub open spec fn resolve_spec(signal: Option<Seq<char>>) -> Profile {
    match signal {
        Some(s) => if s == "test"@ {
            Profile::Test
        } else {
            Profile::Production
        },
        None => Profile::Production,
    }
}

/// Selects the profile from the build environment's profile signal. Never fails.
pub fn resolve(profile_signal: Option<String>) -> (r: Profile)
    ensures
        r == resolve_spec(profile_signal.deep_view()),
{
    proof {
        lemma_recognised_signals();
    }
    match profile_signal {
        Some(s) => {
            if s == String::from_str("prod") {
                Profile::Production
            } else if s == String::from_str("test") {
                Profile::Test
            } else {
                Profile::Production
            }
        },
        None => Profile::Production,
    }
}

/// A signal other than `"prod"` or `"test"`, or no signal at all, resolves to a
/// production build.
pub proof fn lemma_unrecognised_signal_is_production(signal: Option<Seq<char>>)
    requires
        signal != Some("prod"@),
        signal != Some("test"@),
    ensures
        resolve_spec(signal) == Profile::Production,
{
}

/// `"prod"` resolves to a production build and `"test"` to the test harness.
pub proof fn lemma_recognised_signals()
    ensures
        resolve_spec(Some("prod"@)) == Profile::Production,
        resolve_spec(Some("test"@)) == Profile::Test,
{
    reveal_strlit("prod");
    reveal_strlit("test");
    assert("prod"@[0] != "test"@[0]);
}

/// Resolution depends on the signal alone: equal signals give equal profiles.
pub proof fn lemma_resolution_is_pure(a: Option<Seq<char>>, b: Option<Seq<char>>)
    requires
        a == b,
    ensures
        resolve_spec(a) == resolve_spec(b),
{
}

} // verus!
