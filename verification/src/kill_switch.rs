//! Switches that halt trading without stopping the process.
use vstd::prelude::*;
use vstd::string::*;

use crate::text::same_text;

verus! {

/// Which trading is halted: all of it, or one strategy.
#[derive(Clone, Copy, Debug, PartialEq, Eq, Structural)]
pub struct KillSwitchState {
    pub kill_all: bool,
    pub kill_crypto: bool,
    pub kill_weather: bool,
}

/// The switches at one moment.
#[derive(Clone, Copy, Debug, PartialEq, Eq, Structural)]
pub struct KillSwitchSnapshot {
    pub kill_all: bool,
    pub kill_crypto: bool,
    pub kill_weather: bool,
}

/// What setting a switch led to.
#[derive(Clone, Copy, Debug, PartialEq, Eq, Structural)]
pub enum Toggled {
    /// There is no switch of that name.
    NoSuchSwitch,
    /// The switch was so already.
    Unchanged(KillSwitchSnapshot),
    /// The switch was turned on, and trading is halted.
    Activated(KillSwitchSnapshot),
    /// The switch was turned off, and trading goes on.
    Deactivated(KillSwitchSnapshot),
}

impl KillSwitchState {
    /// Whether trading on a signal type is halted.
    pub open spec fn blocks(self, signal_type: Seq<char>) -> bool {
        ||| self.kill_all
        ||| signal_type == "crypto"@ && self.kill_crypto
        ||| signal_type == "weather"@ && self.kill_weather
    }

    pub open spec fn shown(self) -> KillSwitchSnapshot {
        KillSwitchSnapshot {
            kill_all: self.kill_all,
            kill_crypto: self.kill_crypto,
            kill_weather: self.kill_weather,
        }
    }

    /// The state of the switch of a name; `None` where there is none.
    pub open spec fn switch(self, name: Seq<char>) -> Option<bool> {
        if name == "all"@ {
            Some(self.kill_all)
        } else if name == "crypto"@ {
            Some(self.kill_crypto)
        } else if name == "weather"@ {
            Some(self.kill_weather)
        } else {
            None
        }
    }

    /// All switches as they are but that of a name, which is `active`.
    pub open spec fn with_switch(self, name: Seq<char>, active: bool) -> KillSwitchState {
        if name == "all"@ {
            KillSwitchState { kill_all: active, ..self }
        } else if name == "crypto"@ {
            KillSwitchState { kill_crypto: active, ..self }
        } else if name == "weather"@ {
            KillSwitchState { kill_weather: active, ..self }
        } else {
            self
        }
    }

    pub fn new(kill_all: bool, kill_crypto: bool, kill_weather: bool) -> (r: Self)
        ensures
            r == (KillSwitchState { kill_all, kill_crypto, kill_weather }),
    {
        KillSwitchState { kill_all, kill_crypto, kill_weather }
    }

    /// Whether trading on `signal_type` is halted.
    pub fn is_blocked(&self, signal_type: &str) -> (r: bool)
        ensures
            r == self.blocks(signal_type@),
    {
        self.kill_all || (same_text(signal_type, "crypto") && self.kill_crypto) || (same_text(
            signal_type,
            "weather",
        ) && self.kill_weather)
    }

    /// The switches as they are.
    pub fn snapshot(&self) -> (r: KillSwitchSnapshot)
        ensures
            r == self.shown(),
    {
        KillSwitchSnapshot {
            kill_all: self.kill_all,
            kill_crypto: self.kill_crypto,
            kill_weather: self.kill_weather,
        }
    }

    /// Sets the switch called `name`.
    pub fn toggle(&mut self, name: &str, active: bool) -> (r: Toggled)
        ensures
            toggles(*old(self), *final(self), r, name@, active),
    {
        let previous: bool = if same_text(name, "all") {
            let p: bool = self.kill_all;
            self.kill_all = active;
            p
        } else if same_text(name, "crypto") {
            let p: bool = self.kill_crypto;
            self.kill_crypto = active;
            p
        } else if same_text(name, "weather") {
            let p: bool = self.kill_weather;
            self.kill_weather = active;
            p
        } else {
            return Toggled::NoSuchSwitch;
        };
        if previous == active {
            Toggled::Unchanged(self.snapshot())
        } else if active {
            Toggled::Activated(self.snapshot())
        } else {
            Toggled::Deactivated(self.snapshot())
        }
    }
}

/// What setting the switch of a name to `active` leads to.
pub open spec fn toggles(before: KillSwitchState, after: KillSwitchState, r: Toggled, name: Seq<char>, active: bool) -> bool {
    &&& after == before.with_switch(name, active)
    &&& r == (match before.switch(name) {
        None => Toggled::NoSuchSwitch,
        Some(was) => if was == active {
            Toggled::Unchanged(after.shown())
        } else if active {
            Toggled::Activated(after.shown())
        } else {
            Toggled::Deactivated(after.shown())
        },
    })
}

/// The switch for everything halts every signal type.
pub proof fn kill_all_blocks_everything(s: KillSwitchState, signal_type: Seq<char>)
    ensures
        s.with_switch("all"@, true).blocks(signal_type),
{
}

/// The switch of one strategy decides on that strategy alone.
pub proof fn strategy_switches_are_separate(s: KillSwitchState, active: bool)
    requires
        !s.kill_all,
    ensures
        s.with_switch("crypto"@, active).blocks("crypto"@) == active,
        s.with_switch("crypto"@, active).blocks("weather"@) == s.blocks("weather"@),
        s.with_switch("weather"@, active).blocks("weather"@) == active,
        s.with_switch("weather"@, active).blocks("crypto"@) == s.blocks("crypto"@),
{
    reveal_strlit("all");
    reveal_strlit("crypto");
    reveal_strlit("weather");
    assert("crypto"@[0] != "weather"@[0]);
    assert("all"@[0] != "weather"@[0]);
    assert("all"@[0] != "crypto"@[0]);
}

/// Trading on a type is halted exactly by the switch for everything or by its own.
pub proof fn types_are_halted_by_their_switch(s: KillSwitchState, signal_type: Seq<char>)
    ensures
        s.blocks("crypto"@) <==> s.kill_all || s.kill_crypto,
        s.blocks("weather"@) <==> s.kill_all || s.kill_weather,
        signal_type != "crypto"@ && signal_type != "weather"@ ==> (s.blocks(signal_type) <==> s.kill_all),
        s.shown().kill_all == s.kill_all && s.shown().kill_crypto == s.kill_crypto && s.shown().kill_weather
            == s.kill_weather,
{
    reveal_strlit("crypto");
    reveal_strlit("weather");
    assert("crypto"@.len() != "weather"@.len());
}

/// Setting a switch sets that switch and no other; a name that is none sets nothing. What is said
/// of it is whether it changed, and to what.
pub proof fn switches_are_set_by_name(before: KillSwitchState, after: KillSwitchState, r: Toggled, name: Seq<char>, active: bool)
    requires
        toggles(before, after, r, name, active),
    ensures
        name == "all"@ ==> after.kill_all == active && after.kill_crypto == before.kill_crypto && after.kill_weather
            == before.kill_weather,
        name == "crypto"@ ==> after.kill_crypto == active && after.kill_all == before.kill_all && after.kill_weather
            == before.kill_weather,
        name == "weather"@ ==> after.kill_weather == active && after.kill_all == before.kill_all && after.kill_crypto
            == before.kill_crypto,
        r is NoSuchSwitch <==> name != "all"@ && name != "crypto"@ && name != "weather"@,
        r is NoSuchSwitch ==> after == before,
        r is Activated <==> !(r is NoSuchSwitch) && after != before && active,
        r is Deactivated <==> !(r is NoSuchSwitch) && after != before && !active,
        r is Unchanged <==> !(r is NoSuchSwitch) && after == before,
        r matches Toggled::Activated(x) ==> x.kill_all == after.kill_all && x.kill_crypto == after.kill_crypto
            && x.kill_weather == after.kill_weather,
        r matches Toggled::Deactivated(x) ==> x.kill_all == after.kill_all && x.kill_crypto == after.kill_crypto
            && x.kill_weather == after.kill_weather,
        r matches Toggled::Unchanged(x) ==> x.kill_all == after.kill_all && x.kill_crypto == after.kill_crypto
            && x.kill_weather == after.kill_weather,
{
    reveal_strlit("all");
    reveal_strlit("crypto");
    reveal_strlit("weather");
    assert("crypto"@.len() == 6 && "weather"@.len() == 7 && "all"@.len() == 3);
}

} // verus!
