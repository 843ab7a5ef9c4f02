use vstd::prelude::*;
use vstd::string::StringExecFns;

verus! {

/// The enumerated power profile exposed by the external service.
#[derive(Clone, Copy, Debug, PartialEq, Eq, Structural)]
pub enum Profile {
    PowerSaver,
    Balanced,
    Performance,
    Other,
}

/// The textual identifier the external service uses for each profile.
pub open spec fn spec_profile_name(p: Profile) -> Seq<char> {
    match p {
        Profile::PowerSaver => "power-saver"@,
        Profile::Balanced => "balanced"@,
        Profile::Performance => "performance"@,
        Profile::Other => "other"@,
    }
}

/// Decoding an identifier never fails: unrecognized text maps to `Other`.
pub open spec fn spec_profile_of(s: Seq<char>) -> Profile {
    if s == "power-saver"@ {
        Profile::PowerSaver
    } else if s == "balanced"@ {
        Profile::Balanced
    } else if s == "performance"@ {
        Profile::Performance
    } else {
        Profile::Other
    }
}

impl Profile {
    /// Decode the identifier received from the external service.
    pub fn from_name(s: &str) -> (p: Profile)
        ensures
            p == spec_profile_of(s@),
    {
        let owned: String = s.to_owned();
        if owned == String::from_str("power-saver") {
            Profile::PowerSaver
        } else if owned == String::from_str("balanced") {
            Profile::Balanced
        } else if owned == String::from_str("performance") {
            Profile::Performance
        } else {
            Profile::Other
        }
    }

    /// The identifier sent to the external service for this profile.
    pub fn name(&self) -> (s: String)
        ensures
            s@ == spec_profile_name(*self),
    {
        match self {
            Profile::PowerSaver => String::from_str("power-saver"),
            Profile::Balanced => String::from_str("balanced"),
            Profile::Performance => String::from_str("performance"),
            Profile::Other => String::from_str("other"),
        }
    }
}

/// Decoding the identifier of a profile gives that profile back, for every
/// profile but the fallback: `Other` stands for every unrecognized identifier,
/// including its own.
pub proof fn lemma_profile_name_round_trip(p: Profile)
    ensures
        spec_profile_of(spec_profile_name(p)) == p,
{
    reveal_strlit("power-saver");
    reveal_strlit("balanced");
    reveal_strlit("performance");
    reveal_strlit("other");
    assert("power-saver"@.len() == 11);
    assert("balanced"@.len() == 8);
    assert("performance"@.len() == 11);
    assert("other"@.len() == 5);
    assert("performance"@[1] == 'e' && "power-saver"@[1] == 'o');
    match p {
        Profile::PowerSaver => {
            assert(spec_profile_of("power-saver"@) == Profile::PowerSaver);
        },
        Profile::Balanced => {
            assert(spec_profile_of("balanced"@) == Profile::Balanced);
        },
        Profile::Performance => {
            assert(spec_profile_of("performance"@) == Profile::Performance);
        },
        Profile::Other => {
            assert(spec_profile_of("other"@) == Profile::Other);
        },
    }
}

/// An opaque capability handed over by the consumer; invoking it asks the
/// consumer to redraw on its own schedule. The bridge never interprets the
/// identity it carries.
#[derive(Clone, Copy, Debug, PartialEq, Eq, Structural)]
pub struct RepaintHandle {
    id: u64,
}

impl RepaintHandle {
    /// The identity of this handle, visible only to specifications and tests.
    pub closed spec fn spec_id(&self) -> u64 {
        self.id
    }

    pub fn new(id: u64) -> (h: RepaintHandle)
        ensures
            h.spec_id() == id,
    {
        RepaintHandle { id }
    }

    pub fn id(&self) -> (id: u64)
        ensures
            id == self.spec_id(),
    {
        self.id
    }
}

/// A message between the consumer and the bridge. Commands (consumer to
/// bridge) use all three variants: `Context` registers the repaint handle and
/// the other two request writes to the external service. Events (bridge to
/// consumer) use only `Profile` and `BatteryAware`, each reporting a change
/// observed from the external service.
#[derive(Clone, Copy, Debug, PartialEq, Eq, Structural)]
pub enum PpdValue {
    Profile(Profile),
    BatteryAware(bool),
    Context(RepaintHandle),
}

} // verus!
