//! Human-readable names for the mixer's entities and their numeric indices.
//!
//! Aliases accepted, in any letter case:
//! - mix outputs: `headphone1-4`/`hp1-4`, `speaker`/`spk`, `recording`/`rec`,
//!   `bluetooth`/`bt`, `usb1`, `chat`, `usb2`, `callme1-3`/`cm1-3`
//! - sources: `combo1-4`/`mic1-4`, `combo1_2`/`combo12` (and 2_3, 3_4), `usb1`,
//!   `chat`, `usb2`, `bluetooth`/`bt`, `soundpad`/`pad`,
//!   `virtualgame`/`game`/`vgame`, `virtualmusic`/`music`/`vmusic`,
//!   `virtuala`/`va`, `virtualb`/`vb`, `callme1-3`/`cm1-3`
//! - faders: `physical1-6`/`p1-6`/`fader1-6`/`1-6`, `virtual1-3`/`v1-3`/`vfader1-3`

use vstd::prelude::*;
use vstd::string::StringExecFns;

verus! {

/// What `str::to_lowercase` makes of a string.
pub uninterp spec fn lower_of(s: Seq<char>) -> Seq<char>;

/// Every character is a lowercase ASCII letter, a digit or an underscore.
pub open spec fn is_lower_word(s: Seq<char>) -> bool {
    forall|i: int|
        0 <= i < s.len() ==> {
            let c = #[trigger] s[i];
            ('a' <= c && c <= 'z') || ('0' <= c && c <= '9') || c == '_'
        }
}

/// Relies on `str::to_lowercase`: the result depends on the characters alone,
/// and lowercase ASCII letters, digits and underscores are left as they are.
#[verifier::external_body]
fn lowercase(s: &str) -> (r: String)
    ensures
        r@ == lower_of(s@),
        is_lower_word(s@) ==> r@ == s@,
{
    s.to_lowercase()
}

/// `s` holds the same characters as `w`.
fn word_is(s: &String, w: &str) -> (r: bool)
    ensures
        r == (s@ == w@),
{
    *s == w.to_owned()
}

/// `r` is what a name lookup that found `found` returns.
pub open spec fn name_result<T>(r: Result<T, String>, found: Option<T>) -> bool {
    match found {
        Some(x) => r == Ok::<T, String>(x),
        None => r is Err,
    }
}

/// The error text for a name that is not known.
fn unknown_name(kind: &str, s: &str, hint: &str) -> (r: String)
    ensures
        r@ == "Unknown "@ + kind@ + ": "@ + s@ + " (try: "@ + hint@ + ")"@,
{
    let mut e = "Unknown ".to_owned();
    e.append(kind);
    e.append(": ");
    e.append(s);
    e.append(" (try: ");
    e.append(hint);
    e.append(")");
    e
}


/// Mix output bus: where audio goes to.
#[derive(Debug, Clone, Copy, PartialEq, Eq, Structural)]
pub enum MixOutput {
    Headphone1,
    Headphone2,
    Headphone3,
    Headphone4,
    Speaker,
    Recording,
    Bluetooth,
    Usb1,
    Chat,
    Usb2,
    CallMe1,
    CallMe2,
    CallMe3,
}

/// Audio source: where audio comes from.
#[derive(Debug, Clone, Copy, PartialEq, Eq, Structural)]
pub enum Source {
    Combo1,
    Combo2,
    Combo3,
    Combo4,
    Combo1_2,
    Combo2_3,
    Combo3_4,
    Usb1,
    Chat,
    Usb2,
    Bluetooth,
    SoundPad,
    VirtualGame,
    VirtualMusic,
    VirtualA,
    VirtualB,
    CallMe1,
    CallMe2,
    CallMe3,
}

/// Physical or virtual fader.
#[derive(Debug, Clone, Copy, PartialEq, Eq, Structural)]
pub enum Fader {
    Physical1,
    Physical2,
    Physical3,
    Physical4,
    Physical5,
    Physical6,
    Virtual1,
    Virtual2,
    Virtual3,
}

impl MixOutput {
    /// The bus number the device uses.
    pub open spec fn spec_index(self) -> u8 {
        match self {
            MixOutput::Headphone1 => 10,
            MixOutput::Headphone2 => 11,
            MixOutput::Headphone3 => 12,
            MixOutput::Headphone4 => 13,
            MixOutput::Speaker => 14,
            MixOutput::Recording => 15,
            MixOutput::Bluetooth => 16,
            MixOutput::Usb1 => 17,
            MixOutput::Chat => 18,
            MixOutput::Usb2 => 19,
            MixOutput::CallMe1 => 20,
            MixOutput::CallMe2 => 21,
            MixOutput::CallMe3 => 22,
        }
    }

    /// The canonical display name.
    pub open spec fn spec_name(self) -> Seq<char> {
        match self {
            MixOutput::Headphone1 => "headphone1"@,
            MixOutput::Headphone2 => "headphone2"@,
            MixOutput::Headphone3 => "headphone3"@,
            MixOutput::Headphone4 => "headphone4"@,
            MixOutput::Speaker => "speaker"@,
            MixOutput::Recording => "recording"@,
            MixOutput::Bluetooth => "bluetooth"@,
            MixOutput::Usb1 => "usb1"@,
            MixOutput::Chat => "chat"@,
            MixOutput::Usb2 => "usb2"@,
            MixOutput::CallMe1 => "callme1"@,
            MixOutput::CallMe2 => "callme2"@,
            MixOutput::CallMe3 => "callme3"@,
        }
    }

    /// Every alias, the display name first.
    pub open spec fn aliases(self) -> Seq<Seq<char>> {
        match self {
            MixOutput::Headphone1 => seq!["headphone1"@, "hp1"@],
            MixOutput::Headphone2 => seq!["headphone2"@, "hp2"@],
            MixOutput::Headphone3 => seq!["headphone3"@, "hp3"@],
            MixOutput::Headphone4 => seq!["headphone4"@, "hp4"@],
            MixOutput::Speaker => seq!["speaker"@, "spk"@],
            MixOutput::Recording => seq!["recording"@, "rec"@],
            MixOutput::Bluetooth => seq!["bluetooth"@, "bt"@],
            MixOutput::Usb1 => seq!["usb1"@],
            MixOutput::Chat => seq!["chat"@],
            MixOutput::Usb2 => seq!["usb2"@],
            MixOutput::CallMe1 => seq!["callme1"@, "cm1"@],
            MixOutput::CallMe2 => seq!["callme2"@, "cm2"@],
            MixOutput::CallMe3 => seq!["callme3"@, "cm3"@],
        }
    }

    /// The mix output that a lowercase name stands for.
    pub open spec fn by_name(s: Seq<char>) -> Option<MixOutput> {
        if s == "headphone1"@ || s == "hp1"@ {
            Some(MixOutput::Headphone1)
        } else if s == "headphone2"@ || s == "hp2"@ {
            Some(MixOutput::Headphone2)
        } else if s == "headphone3"@ || s == "hp3"@ {
            Some(MixOutput::Headphone3)
        } else if s == "headphone4"@ || s == "hp4"@ {
            Some(MixOutput::Headphone4)
        } else if s == "speaker"@ || s == "spk"@ {
            Some(MixOutput::Speaker)
        } else if s == "recording"@ || s == "rec"@ {
            Some(MixOutput::Recording)
        } else if s == "bluetooth"@ || s == "bt"@ {
            Some(MixOutput::Bluetooth)
        } else if s == "usb1"@ {
            Some(MixOutput::Usb1)
        } else if s == "chat"@ {
            Some(MixOutput::Chat)
        } else if s == "usb2"@ {
            Some(MixOutput::Usb2)
        } else if s == "callme1"@ || s == "cm1"@ {
            Some(MixOutput::CallMe1)
        } else if s == "callme2"@ || s == "cm2"@ {
            Some(MixOutput::CallMe2)
        } else if s == "callme3"@ || s == "cm3"@ {
            Some(MixOutput::CallMe3)
        } else {
            None
        }
    }

    pub fn to_index(&self) -> (r: u8)
        ensures
            r == self.spec_index(),
    {
        match self {
            MixOutput::Headphone1 => 10,
            MixOutput::Headphone2 => 11,
            MixOutput::Headphone3 => 12,
            MixOutput::Headphone4 => 13,
            MixOutput::Speaker => 14,
            MixOutput::Recording => 15,
            MixOutput::Bluetooth => 16,
            MixOutput::Usb1 => 17,
            MixOutput::Chat => 18,
            MixOutput::Usb2 => 19,
            MixOutput::CallMe1 => 20,
            MixOutput::CallMe2 => 21,
            MixOutput::CallMe3 => 22,
        }
    }

    /// The canonical display name.
    pub fn name(&self) -> (r: &'static str)
        ensures
            r@ == self.spec_name(),
    {
        match self {
            MixOutput::Headphone1 => "headphone1",
            MixOutput::Headphone2 => "headphone2",
            MixOutput::Headphone3 => "headphone3",
            MixOutput::Headphone4 => "headphone4",
            MixOutput::Speaker => "speaker",
            MixOutput::Recording => "recording",
            MixOutput::Bluetooth => "bluetooth",
            MixOutput::Usb1 => "usb1",
            MixOutput::Chat => "chat",
            MixOutput::Usb2 => "usb2",
            MixOutput::CallMe1 => "callme1",
            MixOutput::CallMe2 => "callme2",
            MixOutput::CallMe3 => "callme3",
        }
    }

    /// Looks a mix output up by any of its aliases, in any letter case.
    pub fn parse_name(s: &str) -> (r: Result<MixOutput, String>)
        ensures
            name_result(r, MixOutput::by_name(lower_of(s@))),
            is_lower_word(s@) ==> name_result(r, MixOutput::by_name(s@)),
            r matches Err(e) ==> e@ == "Unknown "@ + "mix"@ + ": "@ + s@ + " (try: "@
                + "hp1, speaker, bt, cm1"@ + ")"@,
    {
        let l = lowercase(s);
        if word_is(&l, "headphone1") || word_is(&l, "hp1") {
            Ok(MixOutput::Headphone1)
        } else if word_is(&l, "headphone2") || word_is(&l, "hp2") {
            Ok(MixOutput::Headphone2)
        } else if word_is(&l, "headphone3") || word_is(&l, "hp3") {
            Ok(MixOutput::Headphone3)
        } else if word_is(&l, "headphone4") || word_is(&l, "hp4") {
            Ok(MixOutput::Headphone4)
        } else if word_is(&l, "speaker") || word_is(&l, "spk") {
            Ok(MixOutput::Speaker)
        } else if word_is(&l, "recording") || word_is(&l, "rec") {
            Ok(MixOutput::Recording)
        } else if word_is(&l, "bluetooth") || word_is(&l, "bt") {
            Ok(MixOutput::Bluetooth)
        } else if word_is(&l, "usb1") {
            Ok(MixOutput::Usb1)
        } else if word_is(&l, "chat") {
            Ok(MixOutput::Chat)
        } else if word_is(&l, "usb2") {
            Ok(MixOutput::Usb2)
        } else if word_is(&l, "callme1") || word_is(&l, "cm1") {
            Ok(MixOutput::CallMe1)
        } else if word_is(&l, "callme2") || word_is(&l, "cm2") {
            Ok(MixOutput::CallMe2)
        } else if word_is(&l, "callme3") || word_is(&l, "cm3") {
            Ok(MixOutput::CallMe3)
        } else {
            Err(unknown_name("mix", s, "hp1, speaker, bt, cm1"))
        }
    }
}

impl std::str::FromStr for MixOutput {
    type Err = String;

    /// Looks the name up as `parse_name` does.
    fn from_str(s: &str) -> (r: Result<MixOutput, String>)
        ensures
            name_result(r, MixOutput::by_name(lower_of(s@))),
            is_lower_word(s@) ==> name_result(r, MixOutput::by_name(s@)),
    {
        MixOutput::parse_name(s)
    }
}

/// Each alias of a mix output, its display name first, is a lowercase word that
/// names that mix output and no other; the lookup knows no other name for it.
pub proof fn lemma_mix_names(x: MixOutput)
    ensures
        x.aliases()[0] == x.spec_name(),
        forall|i: int|
            0 <= i < x.aliases().len() ==> is_lower_word(#[trigger] x.aliases()[i])
                && MixOutput::by_name(x.aliases()[i]) == Some(x),
        forall|s: Seq<char>| #[trigger] MixOutput::by_name(s) == Some(x) ==> x.aliases().contains(s),
{
    // Spelling each name out lets the solver tell the names apart.
    reveal_strlit("headphone1");
    assert("headphone1"@ =~= seq!['h', 'e', 'a', 'd', 'p', 'h', 'o', 'n', 'e', '1']);
    reveal_strlit("hp1");
    assert("hp1"@ =~= seq!['h', 'p', '1']);
    reveal_strlit("headphone2");
    assert("headphone2"@ =~= seq!['h', 'e', 'a', 'd', 'p', 'h', 'o', 'n', 'e', '2']);
    reveal_strlit("hp2");
    assert("hp2"@ =~= seq!['h', 'p', '2']);
    reveal_strlit("headphone3");
    assert("headphone3"@ =~= seq!['h', 'e', 'a', 'd', 'p', 'h', 'o', 'n', 'e', '3']);
    reveal_strlit("hp3");
    assert("hp3"@ =~= seq!['h', 'p', '3']);
    reveal_strlit("headphone4");
    assert("headphone4"@ =~= seq!['h', 'e', 'a', 'd', 'p', 'h', 'o', 'n', 'e', '4']);
    reveal_strlit("hp4");
    assert("hp4"@ =~= seq!['h', 'p', '4']);
    reveal_strlit("speaker");
    assert("speaker"@ =~= seq!['s', 'p', 'e', 'a', 'k', 'e', 'r']);
    reveal_strlit("spk");
    assert("spk"@ =~= seq!['s', 'p', 'k']);
    reveal_strlit("recording");
    assert("recording"@ =~= seq!['r', 'e', 'c', 'o', 'r', 'd', 'i', 'n', 'g']);
    reveal_strlit("rec");
    assert("rec"@ =~= seq!['r', 'e', 'c']);
    reveal_strlit("bluetooth");
    assert("bluetooth"@ =~= seq!['b', 'l', 'u', 'e', 't', 'o', 'o', 't', 'h']);
    reveal_strlit("bt");
    assert("bt"@ =~= seq!['b', 't']);
    reveal_strlit("usb1");
    assert("usb1"@ =~= seq!['u', 's', 'b', '1']);
    reveal_strlit("chat");
    assert("chat"@ =~= seq!['c', 'h', 'a', 't']);
    reveal_strlit("usb2");
    assert("usb2"@ =~= seq!['u', 's', 'b', '2']);
    reveal_strlit("callme1");
    assert("callme1"@ =~= seq!['c', 'a', 'l', 'l', 'm', 'e', '1']);
    reveal_strlit("cm1");
    assert("cm1"@ =~= seq!['c', 'm', '1']);
    reveal_strlit("callme2");
    assert("callme2"@ =~= seq!['c', 'a', 'l', 'l', 'm', 'e', '2']);
    reveal_strlit("cm2");
    assert("cm2"@ =~= seq!['c', 'm', '2']);
    reveal_strlit("callme3");
    assert("callme3"@ =~= seq!['c', 'a', 'l', 'l', 'm', 'e', '3']);
    reveal_strlit("cm3");
    assert("cm3"@ =~= seq!['c', 'm', '3']);
    assert forall|s: Seq<char>| #[trigger] MixOutput::by_name(s) == Some(x) implies x.aliases().contains(
        s,
    ) by {
        match x {
            MixOutput::Headphone1 => {
                if s == "headphone1"@ {
                    assert(x.aliases()[0] == s);
                }
                if s == "hp1"@ {
                    assert(x.aliases()[1] == s);
                }
            },
            MixOutput::Headphone2 => {
                if s == "headphone2"@ {
                    assert(x.aliases()[0] == s);
                }
                if s == "hp2"@ {
                    assert(x.aliases()[1] == s);
                }
            },
            MixOutput::Headphone3 => {
                if s == "headphone3"@ {
                    assert(x.aliases()[0] == s);
                }
                if s == "hp3"@ {
                    assert(x.aliases()[1] == s);
                }
            },
            MixOutput::Headphone4 => {
                if s == "headphone4"@ {
                    assert(x.aliases()[0] == s);
                }
                if s == "hp4"@ {
                    assert(x.aliases()[1] == s);
                }
            },
            MixOutput::Speaker => {
                if s == "speaker"@ {
                    assert(x.aliases()[0] == s);
                }
                if s == "spk"@ {
                    assert(x.aliases()[1] == s);
                }
            },
            MixOutput::Recording => {
                if s == "recording"@ {
                    assert(x.aliases()[0] == s);
                }
                if s == "rec"@ {
                    assert(x.aliases()[1] == s);
                }
            },
            MixOutput::Bluetooth => {
                if s == "bluetooth"@ {
                    assert(x.aliases()[0] == s);
                }
                if s == "bt"@ {
                    assert(x.aliases()[1] == s);
                }
            },
            MixOutput::Usb1 => {
                if s == "usb1"@ {
                    assert(x.aliases()[0] == s);
                }
            },
            MixOutput::Chat => {
                if s == "chat"@ {
                    assert(x.aliases()[0] == s);
                }
            },
            MixOutput::Usb2 => {
                if s == "usb2"@ {
                    assert(x.aliases()[0] == s);
                }
            },
            MixOutput::CallMe1 => {
                if s == "callme1"@ {
                    assert(x.aliases()[0] == s);
                }
                if s == "cm1"@ {
                    assert(x.aliases()[1] == s);
                }
            },
            MixOutput::CallMe2 => {
                if s == "callme2"@ {
                    assert(x.aliases()[0] == s);
                }
                if s == "cm2"@ {
                    assert(x.aliases()[1] == s);
                }
            },
            MixOutput::CallMe3 => {
                if s == "callme3"@ {
                    assert(x.aliases()[0] == s);
                }
                if s == "cm3"@ {
                    assert(x.aliases()[1] == s);
                }
            },
        }
    }
}

impl Source {
    /// The input number the device uses; call-me sources count 1 to 3.
    pub open spec fn spec_index(self) -> u8 {
        match self {
            Source::Combo1 => 4,
            Source::Combo2 => 5,
            Source::Combo3 => 6,
            Source::Combo4 => 7,
            Source::Combo1_2 => 8,
            Source::Combo2_3 => 9,
            Source::Combo3_4 => 10,
            Source::Usb1 => 11,
            Source::Chat => 12,
            Source::Usb2 => 13,
            Source::Bluetooth => 14,
            Source::SoundPad => 15,
            Source::VirtualGame => 16,
            Source::VirtualMusic => 17,
            Source::VirtualA => 18,
            Source::VirtualB => 19,
            Source::CallMe1 => 1,
            Source::CallMe2 => 2,
            Source::CallMe3 => 3,
        }
    }

    /// The canonical display name.
    pub open spec fn spec_name(self) -> Seq<char> {
        match self {
            Source::Combo1 => "combo1"@,
            Source::Combo2 => "combo2"@,
            Source::Combo3 => "combo3"@,
            Source::Combo4 => "combo4"@,
            Source::Combo1_2 => "combo1_2"@,
            Source::Combo2_3 => "combo2_3"@,
            Source::Combo3_4 => "combo3_4"@,
            Source::Usb1 => "usb1"@,
            Source::Chat => "chat"@,
            Source::Usb2 => "usb2"@,
            Source::Bluetooth => "bluetooth"@,
            Source::SoundPad => "soundpad"@,
            Source::VirtualGame => "game"@,
            Source::VirtualMusic => "music"@,
            Source::VirtualA => "virtuala"@,
            Source::VirtualB => "virtualb"@,
            Source::CallMe1 => "callme1"@,
            Source::CallMe2 => "callme2"@,
            Source::CallMe3 => "callme3"@,
        }
    }

    /// Every alias, the display name first.
    pub open spec fn aliases(self) -> Seq<Seq<char>> {
        match self {
            Source::Combo1 => seq!["combo1"@, "mic1"@],
            Source::Combo2 => seq!["combo2"@, "mic2"@],
            Source::Combo3 => seq!["combo3"@, "mic3"@],
            Source::Combo4 => seq!["combo4"@, "mic4"@],
            Source::Combo1_2 => seq!["combo1_2"@, "combo12"@],
            Source::Combo2_3 => seq!["combo2_3"@, "combo23"@],
            Source::Combo3_4 => seq!["combo3_4"@, "combo34"@],
            Source::Usb1 => seq!["usb1"@],
            Source::Chat => seq!["chat"@],
            Source::Usb2 => seq!["usb2"@],
            Source::Bluetooth => seq!["bluetooth"@, "bt"@],
            Source::SoundPad => seq!["soundpad"@, "pad"@],
            Source::VirtualGame => seq!["game"@, "virtualgame"@, "vgame"@],
            Source::VirtualMusic => seq!["music"@, "virtualmusic"@, "vmusic"@],
            Source::VirtualA => seq!["virtuala"@, "va"@],
            Source::VirtualB => seq!["virtualb"@, "vb"@],
            Source::CallMe1 => seq!["callme1"@, "cm1"@],
            Source::CallMe2 => seq!["callme2"@, "cm2"@],
            Source::CallMe3 => seq!["callme3"@, "cm3"@],
        }
    }

    /// The source that a lowercase name stands for.
    pub open spec fn by_name(s: Seq<char>) -> Option<Source> {
        if s == "combo1"@ || s == "mic1"@ {
            Some(Source::Combo1)
        } else if s == "combo2"@ || s == "mic2"@ {
            Some(Source::Combo2)
        } else if s == "combo3"@ || s == "mic3"@ {
            Some(Source::Combo3)
        } else if s == "combo4"@ || s == "mic4"@ {
            Some(Source::Combo4)
        } else if s == "combo1_2"@ || s == "combo12"@ {
            Some(Source::Combo1_2)
        } else if s == "combo2_3"@ || s == "combo23"@ {
            Some(Source::Combo2_3)
        } else if s == "combo3_4"@ || s == "combo34"@ {
            Some(Source::Combo3_4)
        } else if s == "usb1"@ {
            Some(Source::Usb1)
        } else if s == "chat"@ {
            Some(Source::Chat)
        } else if s == "usb2"@ {
            Some(Source::Usb2)
        } else if s == "bluetooth"@ || s == "bt"@ {
            Some(Source::Bluetooth)
        } else if s == "soundpad"@ || s == "pad"@ {
            Some(Source::SoundPad)
        } else if s == "virtualgame"@ || s == "game"@ || s == "vgame"@ {
            Some(Source::VirtualGame)
        } else if s == "virtualmusic"@ || s == "music"@ || s == "vmusic"@ {
            Some(Source::VirtualMusic)
        } else if s == "virtuala"@ || s == "va"@ {
            Some(Source::VirtualA)
        } else if s == "virtualb"@ || s == "vb"@ {
            Some(Source::VirtualB)
        } else if s == "callme1"@ || s == "cm1"@ {
            Some(Source::CallMe1)
        } else if s == "callme2"@ || s == "cm2"@ {
            Some(Source::CallMe2)
        } else if s == "callme3"@ || s == "cm3"@ {
            Some(Source::CallMe3)
        } else {
            None
        }
    }

    /// Call-me sources take the call-me payload layout.
    pub open spec fn spec_is_callme(self) -> bool {
        self is CallMe1 || self is CallMe2 || self is CallMe3
    }

    pub fn to_index(&self) -> (r: u8)
        ensures
            r == self.spec_index(),
    {
        match self {
            Source::Combo1 => 4,
            Source::Combo2 => 5,
            Source::Combo3 => 6,
            Source::Combo4 => 7,
            Source::Combo1_2 => 8,
            Source::Combo2_3 => 9,
            Source::Combo3_4 => 10,
            Source::Usb1 => 11,
            Source::Chat => 12,
            Source::Usb2 => 13,
            Source::Bluetooth => 14,
            Source::SoundPad => 15,
            Source::VirtualGame => 16,
            Source::VirtualMusic => 17,
            Source::VirtualA => 18,
            Source::VirtualB => 19,
            Source::CallMe1 => 1,
            Source::CallMe2 => 2,
            Source::CallMe3 => 3,
        }
    }

    /// Call-me sources take the call-me payload layout.
    pub fn is_callme(&self) -> (r: bool)
        ensures
            r == self.spec_is_callme(),
    {
        matches!(self, Source::CallMe1 | Source::CallMe2 | Source::CallMe3)
    }

    /// The canonical display name.
    pub fn name(&self) -> (r: &'static str)
        ensures
            r@ == self.spec_name(),
    {
        match self {
            Source::Combo1 => "combo1",
            Source::Combo2 => "combo2",
            Source::Combo3 => "combo3",
            Source::Combo4 => "combo4",
            Source::Combo1_2 => "combo1_2",
            Source::Combo2_3 => "combo2_3",
            Source::Combo3_4 => "combo3_4",
            Source::Usb1 => "usb1",
            Source::Chat => "chat",
            Source::Usb2 => "usb2",
            Source::Bluetooth => "bluetooth",
            Source::SoundPad => "soundpad",
            Source::VirtualGame => "game",
            Source::VirtualMusic => "music",
            Source::VirtualA => "virtuala",
            Source::VirtualB => "virtualb",
            Source::CallMe1 => "callme1",
            Source::CallMe2 => "callme2",
            Source::CallMe3 => "callme3",
        }
    }

    /// Looks a source up by any of its aliases, in any letter case.
    pub fn parse_name(s: &str) -> (r: Result<Source, String>)
        ensures
            name_result(r, Source::by_name(lower_of(s@))),
            is_lower_word(s@) ==> name_result(r, Source::by_name(s@)),
            r matches Err(e) ==> e@ == "Unknown "@ + "source"@ + ": "@ + s@ + " (try: "@
                + "combo1, bt, game, cm1"@ + ")"@,
    {
        let l = lowercase(s);
        if word_is(&l, "combo1") || word_is(&l, "mic1") {
            Ok(Source::Combo1)
        } else if word_is(&l, "combo2") || word_is(&l, "mic2") {
            Ok(Source::Combo2)
        } else if word_is(&l, "combo3") || word_is(&l, "mic3") {
            Ok(Source::Combo3)
        } else if word_is(&l, "combo4") || word_is(&l, "mic4") {
            Ok(Source::Combo4)
        } else if word_is(&l, "combo1_2") || word_is(&l, "combo12") {
            Ok(Source::Combo1_2)
        } else if word_is(&l, "combo2_3") || word_is(&l, "combo23") {
            Ok(Source::Combo2_3)
        } else if word_is(&l, "combo3_4") || word_is(&l, "combo34") {
            Ok(Source::Combo3_4)
        } else if word_is(&l, "usb1") {
            Ok(Source::Usb1)
        } else if word_is(&l, "chat") {
            Ok(Source::Chat)
        } else if word_is(&l, "usb2") {
            Ok(Source::Usb2)
        } else if word_is(&l, "bluetooth") || word_is(&l, "bt") {
            Ok(Source::Bluetooth)
        } else if word_is(&l, "soundpad") || word_is(&l, "pad") {
            Ok(Source::SoundPad)
        } else if word_is(&l, "virtualgame") || word_is(&l, "game") || word_is(&l, "vgame") {
            Ok(Source::VirtualGame)
        } else if word_is(&l, "virtualmusic") || word_is(&l, "music") || word_is(&l, "vmusic") {
            Ok(Source::VirtualMusic)
        } else if word_is(&l, "virtuala") || word_is(&l, "va") {
            Ok(Source::VirtualA)
        } else if word_is(&l, "virtualb") || word_is(&l, "vb") {
            Ok(Source::VirtualB)
        } else if word_is(&l, "callme1") || word_is(&l, "cm1") {
            Ok(Source::CallMe1)
        } else if word_is(&l, "callme2") || word_is(&l, "cm2") {
            Ok(Source::CallMe2)
        } else if word_is(&l, "callme3") || word_is(&l, "cm3") {
            Ok(Source::CallMe3)
        } else {
            Err(unknown_name("source", s, "combo1, bt, game, cm1"))
        }
    }
}

impl std::str::FromStr for Source {
    type Err = String;

    /// Looks the name up as `parse_name` does.
    fn from_str(s: &str) -> (r: Result<Source, String>)
        ensures
            name_result(r, Source::by_name(lower_of(s@))),
            is_lower_word(s@) ==> name_result(r, Source::by_name(s@)),
    {
        Source::parse_name(s)
    }
}

/// Each alias of a source, its display name first, is a lowercase word that
/// names that source and no other; the lookup knows no other name for it.
pub proof fn lemma_source_names(x: Source)
    ensures
        x.aliases()[0] == x.spec_name(),
        forall|i: int|
            0 <= i < x.aliases().len() ==> is_lower_word(#[trigger] x.aliases()[i])
                && Source::by_name(x.aliases()[i]) == Some(x),
        forall|s: Seq<char>| #[trigger] Source::by_name(s) == Some(x) ==> x.aliases().contains(s),
{
    // Spelling each name out lets the solver tell the names apart.
    reveal_strlit("combo1");
    assert("combo1"@ =~= seq!['c', 'o', 'm', 'b', 'o', '1']);
    reveal_strlit("mic1");
    assert("mic1"@ =~= seq!['m', 'i', 'c', '1']);
    reveal_strlit("combo2");
    assert("combo2"@ =~= seq!['c', 'o', 'm', 'b', 'o', '2']);
    reveal_strlit("mic2");
    assert("mic2"@ =~= seq!['m', 'i', 'c', '2']);
    reveal_strlit("combo3");
    assert("combo3"@ =~= seq!['c', 'o', 'm', 'b', 'o', '3']);
    reveal_strlit("mic3");
    assert("mic3"@ =~= seq!['m', 'i', 'c', '3']);
    reveal_strlit("combo4");
    assert("combo4"@ =~= seq!['c', 'o', 'm', 'b', 'o', '4']);
    reveal_strlit("mic4");
    assert("mic4"@ =~= seq!['m', 'i', 'c', '4']);
    reveal_strlit("combo1_2");
    assert("combo1_2"@ =~= seq!['c', 'o', 'm', 'b', 'o', '1', '_', '2']);
    reveal_strlit("combo12");
    assert("combo12"@ =~= seq!['c', 'o', 'm', 'b', 'o', '1', '2']);
    reveal_strlit("combo2_3");
    assert("combo2_3"@ =~= seq!['c', 'o', 'm', 'b', 'o', '2', '_', '3']);
    reveal_strlit("combo23");
    assert("combo23"@ =~= seq!['c', 'o', 'm', 'b', 'o', '2', '3']);
    reveal_strlit("combo3_4");
    assert("combo3_4"@ =~= seq!['c', 'o', 'm', 'b', 'o', '3', '_', '4']);
    reveal_strlit("combo34");
    assert("combo34"@ =~= seq!['c', 'o', 'm', 'b', 'o', '3', '4']);
    reveal_strlit("usb1");
    assert("usb1"@ =~= seq!['u', 's', 'b', '1']);
    reveal_strlit("chat");
    assert("chat"@ =~= seq!['c', 'h', 'a', 't']);
    reveal_strlit("usb2");
    assert("usb2"@ =~= seq!['u', 's', 'b', '2']);
    reveal_strlit("bluetooth");
    assert("bluetooth"@ =~= seq!['b', 'l', 'u', 'e', 't', 'o', 'o', 't', 'h']);
    reveal_strlit("bt");
    assert("bt"@ =~= seq!['b', 't']);
    reveal_strlit("soundpad");
    assert("soundpad"@ =~= seq!['s', 'o', 'u', 'n', 'd', 'p', 'a', 'd']);
    reveal_strlit("pad");
    assert("pad"@ =~= seq!['p', 'a', 'd']);
    reveal_strlit("virtualgame");
    assert("virtualgame"@ =~= seq!['v', 'i', 'r', 't', 'u', 'a', 'l', 'g', 'a', 'm', 'e']);
    reveal_strlit("game");
    assert("game"@ =~= seq!['g', 'a', 'm', 'e']);
    reveal_strlit("vgame");
    assert("vgame"@ =~= seq!['v', 'g', 'a', 'm', 'e']);
    reveal_strlit("virtualmusic");
    assert("virtualmusic"@ =~= seq!['v', 'i', 'r', 't', 'u', 'a', 'l', 'm', 'u', 's', 'i', 'c']);
    reveal_strlit("music");
    assert("music"@ =~= seq!['m', 'u', 's', 'i', 'c']);
    reveal_strlit("vmusic");
    assert("vmusic"@ =~= seq!['v', 'm', 'u', 's', 'i', 'c']);
    reveal_strlit("virtuala");
    assert("virtuala"@ =~= seq!['v', 'i', 'r', 't', 'u', 'a', 'l', 'a']);
    reveal_strlit("va");
    assert("va"@ =~= seq!['v', 'a']);
    reveal_strlit("virtualb");
    assert("virtualb"@ =~= seq!['v', 'i', 'r', 't', 'u', 'a', 'l', 'b']);
    reveal_strlit("vb");
    assert("vb"@ =~= seq!['v', 'b']);
    reveal_strlit("callme1");
    assert("callme1"@ =~= seq!['c', 'a', 'l', 'l', 'm', 'e', '1']);
    reveal_strlit("cm1");
    assert("cm1"@ =~= seq!['c', 'm', '1']);
    reveal_strlit("callme2");
    assert("callme2"@ =~= seq!['c', 'a', 'l', 'l', 'm', 'e', '2']);
    reveal_strlit("cm2");
    assert("cm2"@ =~= seq!['c', 'm', '2']);
    reveal_strlit("callme3");
    assert("callme3"@ =~= seq!['c', 'a', 'l', 'l', 'm', 'e', '3']);
    reveal_strlit("cm3");
    assert("cm3"@ =~= seq!['c', 'm', '3']);
    assert forall|s: Seq<char>| #[trigger] Source::by_name(s) == Some(x) implies x.aliases().contains(
        s,
    ) by {
        match x {
            Source::Combo1 => {
                if s == "combo1"@ {
                    assert(x.aliases()[0] == s);
                }
                if s == "mic1"@ {
                    assert(x.aliases()[1] == s);
                }
            },
            Source::Combo2 => {
                if s == "combo2"@ {
                    assert(x.aliases()[0] == s);
                }
                if s == "mic2"@ {
                    assert(x.aliases()[1] == s);
                }
            },
            Source::Combo3 => {
                if s == "combo3"@ {
                    assert(x.aliases()[0] == s);
                }
                if s == "mic3"@ {
                    assert(x.aliases()[1] == s);
                }
            },
            Source::Combo4 => {
                if s == "combo4"@ {
                    assert(x.aliases()[0] == s);
                }
                if s == "mic4"@ {
                    assert(x.aliases()[1] == s);
                }
            },
            Source::Combo1_2 => {
                if s == "combo1_2"@ {
                    assert(x.aliases()[0] == s);
                }
                if s == "combo12"@ {
                    assert(x.aliases()[1] == s);
                }
            },
            Source::Combo2_3 => {
                if s == "combo2_3"@ {
                    assert(x.aliases()[0] == s);
                }
                if s == "combo23"@ {
                    assert(x.aliases()[1] == s);
                }
            },
            Source::Combo3_4 => {
                if s == "combo3_4"@ {
                    assert(x.aliases()[0] == s);
                }
                if s == "combo34"@ {
                    assert(x.aliases()[1] == s);
                }
            },
            Source::Usb1 => {
                if s == "usb1"@ {
                    assert(x.aliases()[0] == s);
                }
            },
            Source::Chat => {
                if s == "chat"@ {
                    assert(x.aliases()[0] == s);
                }
            },
            Source::Usb2 => {
                if s == "usb2"@ {
                    assert(x.aliases()[0] == s);
                }
            },
            Source::Bluetooth => {
                if s == "bluetooth"@ {
                    assert(x.aliases()[0] == s);
                }
                if s == "bt"@ {
                    assert(x.aliases()[1] == s);
                }
            },
            Source::SoundPad => {
                if s == "soundpad"@ {
                    assert(x.aliases()[0] == s);
                }
                if s == "pad"@ {
                    assert(x.aliases()[1] == s);
                }
            },
            Source::VirtualGame => {
                if s == "game"@ {
                    assert(x.aliases()[0] == s);
                }
                if s == "virtualgame"@ {
                    assert(x.aliases()[1] == s);
                }
                if s == "vgame"@ {
                    assert(x.aliases()[2] == s);
                }
            },
            Source::VirtualMusic => {
                if s == "music"@ {
                    assert(x.aliases()[0] == s);
                }
                if s == "virtualmusic"@ {
                    assert(x.aliases()[1] == s);
                }
                if s == "vmusic"@ {
                    assert(x.aliases()[2] == s);
                }
            },
            Source::VirtualA => {
                if s == "virtuala"@ {
                    assert(x.aliases()[0] == s);
                }
                if s == "va"@ {
                    assert(x.aliases()[1] == s);
                }
            },
            Source::VirtualB => {
                if s == "virtualb"@ {
                    assert(x.aliases()[0] == s);
                }
                if s == "vb"@ {
                    assert(x.aliases()[1] == s);
                }
            },
            Source::CallMe1 => {
                if s == "callme1"@ {
                    assert(x.aliases()[0] == s);
                }
                if s == "cm1"@ {
                    assert(x.aliases()[1] == s);
                }
            },
            Source::CallMe2 => {
                if s == "callme2"@ {
                    assert(x.aliases()[0] == s);
                }
                if s == "cm2"@ {
                    assert(x.aliases()[1] == s);
                }
            },
            Source::CallMe3 => {
                if s == "callme3"@ {
                    assert(x.aliases()[0] == s);
                }
                if s == "cm3"@ {
                    assert(x.aliases()[1] == s);
                }
            },
        }
    }
}

impl Fader {
    /// The channel number the device uses.
    pub open spec fn spec_index(self) -> u8 {
        match self {
            Fader::Physical1 => 0,
            Fader::Physical2 => 1,
            Fader::Physical3 => 2,
            Fader::Physical4 => 3,
            Fader::Physical5 => 4,
            Fader::Physical6 => 5,
            Fader::Virtual1 => 6,
            Fader::Virtual2 => 7,
            Fader::Virtual3 => 8,
        }
    }

    /// The canonical display name.
    pub open spec fn spec_name(self) -> Seq<char> {
        match self {
            Fader::Physical1 => "physical1"@,
            Fader::Physical2 => "physical2"@,
            Fader::Physical3 => "physical3"@,
            Fader::Physical4 => "physical4"@,
            Fader::Physical5 => "physical5"@,
            Fader::Physical6 => "physical6"@,
            Fader::Virtual1 => "virtual1"@,
            Fader::Virtual2 => "virtual2"@,
            Fader::Virtual3 => "virtual3"@,
        }
    }

    /// Every alias, the display name first.
    pub open spec fn aliases(self) -> Seq<Seq<char>> {
        match self {
            Fader::Physical1 => seq!["physical1"@, "p1"@, "fader1"@, "1"@],
            Fader::Physical2 => seq!["physical2"@, "p2"@, "fader2"@, "2"@],
            Fader::Physical3 => seq!["physical3"@, "p3"@, "fader3"@, "3"@],
            Fader::Physical4 => seq!["physical4"@, "p4"@, "fader4"@, "4"@],
            Fader::Physical5 => seq!["physical5"@, "p5"@, "fader5"@, "5"@],
            Fader::Physical6 => seq!["physical6"@, "p6"@, "fader6"@, "6"@],
            Fader::Virtual1 => seq!["virtual1"@, "v1"@, "vfader1"@],
            Fader::Virtual2 => seq!["virtual2"@, "v2"@, "vfader2"@],
            Fader::Virtual3 => seq!["virtual3"@, "v3"@, "vfader3"@],
        }
    }

    /// The fader that a lowercase name stands for.
    pub open spec fn by_name(s: Seq<char>) -> Option<Fader> {
        if s == "physical1"@ || s == "p1"@ || s == "fader1"@ || s == "1"@ {
            Some(Fader::Physical1)
        } else if s == "physical2"@ || s == "p2"@ || s == "fader2"@ || s == "2"@ {
            Some(Fader::Physical2)
        } else if s == "physical3"@ || s == "p3"@ || s == "fader3"@ || s == "3"@ {
            Some(Fader::Physical3)
        } else if s == "physical4"@ || s == "p4"@ || s == "fader4"@ || s == "4"@ {
            Some(Fader::Physical4)
        } else if s == "physical5"@ || s == "p5"@ || s == "fader5"@ || s == "5"@ {
            Some(Fader::Physical5)
        } else if s == "physical6"@ || s == "p6"@ || s == "fader6"@ || s == "6"@ {
            Some(Fader::Physical6)
        } else if s == "virtual1"@ || s == "v1"@ || s == "vfader1"@ {
            Some(Fader::Virtual1)
        } else if s == "virtual2"@ || s == "v2"@ || s == "vfader2"@ {
            Some(Fader::Virtual2)
        } else if s == "virtual3"@ || s == "v3"@ || s == "vfader3"@ {
            Some(Fader::Virtual3)
        } else {
            None
        }
    }

    pub fn to_index(&self) -> (r: u8)
        ensures
            r == self.spec_index(),
    {
        match self {
            Fader::Physical1 => 0,
            Fader::Physical2 => 1,
            Fader::Physical3 => 2,
            Fader::Physical4 => 3,
            Fader::Physical5 => 4,
            Fader::Physical6 => 5,
            Fader::Virtual1 => 6,
            Fader::Virtual2 => 7,
            Fader::Virtual3 => 8,
        }
    }

    /// The canonical display name.
    pub fn name(&self) -> (r: &'static str)
        ensures
            r@ == self.spec_name(),
    {
        match self {
            Fader::Physical1 => "physical1",
            Fader::Physical2 => "physical2",
            Fader::Physical3 => "physical3",
            Fader::Physical4 => "physical4",
            Fader::Physical5 => "physical5",
            Fader::Physical6 => "physical6",
            Fader::Virtual1 => "virtual1",
            Fader::Virtual2 => "virtual2",
            Fader::Virtual3 => "virtual3",
        }
    }

    /// Looks a fader up by any of its aliases, in any letter case.
    pub fn parse_name(s: &str) -> (r: Result<Fader, String>)
        ensures
            name_result(r, Fader::by_name(lower_of(s@))),
            is_lower_word(s@) ==> name_result(r, Fader::by_name(s@)),
            r matches Err(e) ==> e@ == "Unknown "@ + "fader"@ + ": "@ + s@ + " (try: "@
                + "p1, fader1, v1"@ + ")"@,
    {
        let l = lowercase(s);
        if word_is(&l, "physical1") || word_is(&l, "p1") || word_is(&l, "fader1") || word_is(&l, "1") {
            Ok(Fader::Physical1)
        } else if word_is(&l, "physical2") || word_is(&l, "p2") || word_is(&l, "fader2") || word_is(&l, "2") {
            Ok(Fader::Physical2)
        } else if word_is(&l, "physical3") || word_is(&l, "p3") || word_is(&l, "fader3") || word_is(&l, "3") {
            Ok(Fader::Physical3)
        } else if word_is(&l, "physical4") || word_is(&l, "p4") || word_is(&l, "fader4") || word_is(&l, "4") {
            Ok(Fader::Physical4)
        } else if word_is(&l, "physical5") || word_is(&l, "p5") || word_is(&l, "fader5") || word_is(&l, "5") {
            Ok(Fader::Physical5)
        } else if word_is(&l, "physical6") || word_is(&l, "p6") || word_is(&l, "fader6") || word_is(&l, "6") {
            Ok(Fader::Physical6)
        } else if word_is(&l, "virtual1") || word_is(&l, "v1") || word_is(&l, "vfader1") {
            Ok(Fader::Virtual1)
        } else if word_is(&l, "virtual2") || word_is(&l, "v2") || word_is(&l, "vfader2") {
            Ok(Fader::Virtual2)
        } else if word_is(&l, "virtual3") || word_is(&l, "v3") || word_is(&l, "vfader3") {
            Ok(Fader::Virtual3)
        } else {
            Err(unknown_name("fader", s, "p1, fader1, v1"))
        }
    }
}

impl std::str::FromStr for Fader {
    type Err = String;

    /// Looks the name up as `parse_name` does.
    fn from_str(s: &str) -> (r: Result<Fader, String>)
        ensures
            name_result(r, Fader::by_name(lower_of(s@))),
            is_lower_word(s@) ==> name_result(r, Fader::by_name(s@)),
    {
        Fader::parse_name(s)
    }
}

/// Each alias of a fader, its display name first, is a lowercase word that
/// names that fader and no other; the lookup knows no other name for it.
pub proof fn lemma_fader_names(x: Fader)
    ensures
        x.aliases()[0] == x.spec_name(),
        forall|i: int|
            0 <= i < x.aliases().len() ==> is_lower_word(#[trigger] x.aliases()[i])
                && Fader::by_name(x.aliases()[i]) == Some(x),
        forall|s: Seq<char>| #[trigger] Fader::by_name(s) == Some(x) ==> x.aliases().contains(s),
{
    // Spelling each name out lets the solver tell the names apart.
    reveal_strlit("physical1");
    assert("physical1"@ =~= seq!['p', 'h', 'y', 's', 'i', 'c', 'a', 'l', '1']);
    reveal_strlit("p1");
    assert("p1"@ =~= seq!['p', '1']);
    reveal_strlit("fader1");
    assert("fader1"@ =~= seq!['f', 'a', 'd', 'e', 'r', '1']);
    reveal_strlit("1");
    assert("1"@ =~= seq!['1']);
    reveal_strlit("physical2");
    assert("physical2"@ =~= seq!['p', 'h', 'y', 's', 'i', 'c', 'a', 'l', '2']);
    reveal_strlit("p2");
    assert("p2"@ =~= seq!['p', '2']);
    reveal_strlit("fader2");
    assert("fader2"@ =~= seq!['f', 'a', 'd', 'e', 'r', '2']);
    reveal_strlit("2");
    assert("2"@ =~= seq!['2']);
    reveal_strlit("physical3");
    assert("physical3"@ =~= seq!['p', 'h', 'y', 's', 'i', 'c', 'a', 'l', '3']);
    reveal_strlit("p3");
    assert("p3"@ =~= seq!['p', '3']);
    reveal_strlit("fader3");
    assert("fader3"@ =~= seq!['f', 'a', 'd', 'e', 'r', '3']);
    reveal_strlit("3");
    assert("3"@ =~= seq!['3']);
    reveal_strlit("physical4");
    assert("physical4"@ =~= seq!['p', 'h', 'y', 's', 'i', 'c', 'a', 'l', '4']);
    reveal_strlit("p4");
    assert("p4"@ =~= seq!['p', '4']);
    reveal_strlit("fader4");
    assert("fader4"@ =~= seq!['f', 'a', 'd', 'e', 'r', '4']);
    reveal_strlit("4");
    assert("4"@ =~= seq!['4']);
    reveal_strlit("physical5");
    assert("physical5"@ =~= seq!['p', 'h', 'y', 's', 'i', 'c', 'a', 'l', '5']);
    reveal_strlit("p5");
    assert("p5"@ =~= seq!['p', '5']);
    reveal_strlit("fader5");
    assert("fader5"@ =~= seq!['f', 'a', 'd', 'e', 'r', '5']);
    reveal_strlit("5");
    assert("5"@ =~= seq!['5']);
    reveal_strlit("physical6");
    assert("physical6"@ =~= seq!['p', 'h', 'y', 's', 'i', 'c', 'a', 'l', '6']);
    reveal_strlit("p6");
    assert("p6"@ =~= seq!['p', '6']);
    reveal_strlit("fader6");
    assert("fader6"@ =~= seq!['f', 'a', 'd', 'e', 'r', '6']);
    reveal_strlit("6");
    assert("6"@ =~= seq!['6']);
    reveal_strlit("virtual1");
    assert("virtual1"@ =~= seq!['v', 'i', 'r', 't', 'u', 'a', 'l', '1']);
    reveal_strlit("v1");
    assert("v1"@ =~= seq!['v', '1']);
    reveal_strlit("vfader1");
    assert("vfader1"@ =~= seq!['v', 'f', 'a', 'd', 'e', 'r', '1']);
    reveal_strlit("virtual2");
    assert("virtual2"@ =~= seq!['v', 'i', 'r', 't', 'u', 'a', 'l', '2']);
    reveal_strlit("v2");
    assert("v2"@ =~= seq!['v', '2']);
    reveal_strlit("vfader2");
    assert("vfader2"@ =~= seq!['v', 'f', 'a', 'd', 'e', 'r', '2']);
    reveal_strlit("virtual3");
    assert("virtual3"@ =~= seq!['v', 'i', 'r', 't', 'u', 'a', 'l', '3']);
    reveal_strlit("v3");
    assert("v3"@ =~= seq!['v', '3']);
    reveal_strlit("vfader3");
    assert("vfader3"@ =~= seq!['v', 'f', 'a', 'd', 'e', 'r', '3']);
    assert("1"@[0] == '1');
    assert("2"@[0] == '2');
    assert("3"@[0] == '3');
    assert("4"@[0] == '4');
    assert("5"@[0] == '5');
    assert("6"@[0] == '6');
}

/// The source with a given input number, if there is one.
pub open spec fn source_with_index(idx: u8) -> Option<Source> {
    match idx {
        1 => Some(Source::CallMe1),
        2 => Some(Source::CallMe2),
        3 => Some(Source::CallMe3),
        4 => Some(Source::Combo1),
        5 => Some(Source::Combo2),
        6 => Some(Source::Combo3),
        7 => Some(Source::Combo4),
        8 => Some(Source::Combo1_2),
        9 => Some(Source::Combo2_3),
        10 => Some(Source::Combo3_4),
        11 => Some(Source::Usb1),
        12 => Some(Source::Chat),
        13 => Some(Source::Usb2),
        14 => Some(Source::Bluetooth),
        15 => Some(Source::SoundPad),
        16 => Some(Source::VirtualGame),
        17 => Some(Source::VirtualMusic),
        18 => Some(Source::VirtualA),
        19 => Some(Source::VirtualB),
        _ => None,
    }
}

/// The source with a given input number, if there is one.
pub fn index_to_source(idx: u8) -> (r: Option<Source>)
    ensures
        r == source_with_index(idx),
        r matches Some(s) ==> s.spec_index() == idx,
{
    match idx {
        1 => Some(Source::CallMe1),
        2 => Some(Source::CallMe2),
        3 => Some(Source::CallMe3),
        4 => Some(Source::Combo1),
        5 => Some(Source::Combo2),
        6 => Some(Source::Combo3),
        7 => Some(Source::Combo4),
        8 => Some(Source::Combo1_2),
        9 => Some(Source::Combo2_3),
        10 => Some(Source::Combo3_4),
        11 => Some(Source::Usb1),
        12 => Some(Source::Chat),
        13 => Some(Source::Usb2),
        14 => Some(Source::Bluetooth),
        15 => Some(Source::SoundPad),
        16 => Some(Source::VirtualGame),
        17 => Some(Source::VirtualMusic),
        18 => Some(Source::VirtualA),
        19 => Some(Source::VirtualB),
        _ => None,
    }
}

} // verus!
