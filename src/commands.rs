//! Commands of the control channel, and the device commands they become.
//!
//! A control message is read in one of two grammars: a typed record (decoded
//! outside the library) or the whitespace-separated legacy text, with verbs
//! `mute`, `source`, `level`, `touch`, `mix_link`, `mix_unlink`,
//! `mix_disable`, `callme_link` and `callme_unlink`.

use crate::mix::{mix_payloads, views, MixAction, MixCommand};
use crate::names::{source_with_index, Fader, MixOutput, Source, index_to_source};
use crate::protocol::{
    input_source_payload, level_payload, mic_type_payload, mute_payload, touch_payload,
    ChannelInputSource, ChannelOutputMute, FaderLevel, InputMicrophoneType, RodeCommand,
    ScreenTouched,
};
use crate::text::{chars_of, parse_unsigned, split_words, unsigned_value, word_is, words};
use vstd::prelude::*;

verus! {

/// A typed control command, as an operator states it.
#[derive(Debug, Clone, Copy, PartialEq, Eq, Structural)]
pub enum Command {
    /// Link, unlink or disable a source on a mix bus.
    Mix { action: MixAction, mix: MixOutput, source: Source },
    /// Any of mute, input source and level of one fader. The level is the
    /// device value: 0 to 65535 for the unit interval.
    Fader { fader: Fader, muted: Option<bool>, source: Option<Source>, level: Option<u32> },
    /// A touch on the device screen.
    Touch,
}

impl Command {
    pub fn mix_link(mix: MixOutput, source: Source) -> (r: Command)
        ensures
            r == (Command::Mix { action: MixAction::Link, mix, source }),
    {
        Command::Mix { action: MixAction::Link, mix, source }
    }

    pub fn mix_unlink(mix: MixOutput, source: Source) -> (r: Command)
        ensures
            r == (Command::Mix { action: MixAction::Unlink, mix, source }),
    {
        Command::Mix { action: MixAction::Unlink, mix, source }
    }

    pub fn mute(fader: Fader, muted: bool) -> (r: Command)
        ensures
            r == (Command::Fader { fader, muted: Some(muted), source: None, level: None }),
    {
        Command::Fader { fader, muted: Some(muted), source: None, level: None }
    }

    /// A level command; `level` is the device value, 0 to 65535.
    pub fn level(fader: Fader, level: u32) -> (r: Command)
        ensures
            r == (Command::Fader { fader, muted: None, source: None, level: Some(level) }),
    {
        Command::Fader { fader, muted: None, source: None, level: Some(level) }
    }
}

/// A device command, as the proxy injects it.
#[derive(Debug, Clone, Copy, PartialEq, Eq, Structural)]
pub enum ProxyCommand {
    Mute { fader_index: u8, mute: bool },
    Source { fader_index: u8, source_id: u32 },
    MicType { fader_index: u8, mic_type: u32 },
    Level { fader_index: u8, level: u32 },
    Touch,
    Mix { action: MixAction, mix_index: u8, source: Source },
}

impl ProxyCommand {
    /// The payloads of this command, in the order they are sent.
    pub open spec fn spec_payloads(self, sid: Seq<u8>) -> Seq<Seq<u8>> {
        match self {
            ProxyCommand::Mute { fader_index, mute } => seq![mute_payload(sid, fader_index, mute)],
            ProxyCommand::Source { fader_index, source_id } => seq![
                input_source_payload(sid, fader_index, source_id),
            ],
            ProxyCommand::MicType { fader_index, mic_type } => seq![
                mic_type_payload(sid, fader_index, mic_type),
            ],
            ProxyCommand::Level { fader_index, level } => seq![level_payload(fader_index, level)],
            ProxyCommand::Touch => seq![touch_payload(sid)],
            ProxyCommand::Mix { action, mix_index, source } => mix_payloads(
                action,
                mix_index,
                source,
                sid,
            ),
        }
    }

    /// All payloads of this command, in order; a mix link has two.
    pub fn build_payloads(&self, session_id: &[u8]) -> (r: Vec<Vec<u8>>)
        ensures
            views(r@) == self.spec_payloads(session_id@),
    {
        match self {
            ProxyCommand::Mix { action, mix_index, source } => {
                MixCommand::new(*action, *mix_index, *source).build_payloads(session_id)
            },
            _ => {
                let r: Vec<Vec<u8>> = vec![self.build_payload(session_id)];
                assert(views(r@) =~= self.spec_payloads(session_id@));
                r
            },
        }
    }
}

impl RodeCommand for ProxyCommand {
    /// The single payload of the command; the first one for a mix command.
    open spec fn spec_payload(&self, session_id: Seq<u8>) -> Seq<u8> {
        match *self {
            ProxyCommand::Mix { action, mix_index, source } => MixCommand {
                action,
                mix_index,
                source,
            }.spec_payload(session_id),
            _ => self.spec_payloads(session_id)[0],
        }
    }

    fn build_payload(&self, session_id: &[u8]) -> (r: Vec<u8>) {
        match self {
            ProxyCommand::Mute { fader_index, mute } => {
                ChannelOutputMute { fader_index: *fader_index, mute: *mute }.build_payload(
                    session_id,
                )
            },
            ProxyCommand::Source { fader_index, source_id } => {
                ChannelInputSource {
                    fader_index: *fader_index,
                    source_id: *source_id,
                }.build_payload(session_id)
            },
            ProxyCommand::MicType { fader_index, mic_type } => {
                InputMicrophoneType {
                    fader_index: *fader_index,
                    mic_type: *mic_type,
                }.build_payload(session_id)
            },
            ProxyCommand::Level { fader_index, level } => {
                FaderLevel { fader_index: *fader_index, level: *level }.build_payload(session_id)
            },
            ProxyCommand::Touch => ScreenTouched.build_payload(session_id),
            ProxyCommand::Mix { action, mix_index, source } => {
                MixCommand::new(*action, *mix_index, *source).build_payload(session_id)
            },
        }
    }
}

/// The items of an optional value, as a list of zero or one.
pub open spec fn opt_seq<T>(o: Option<T>) -> Seq<T> {
    match o {
        Some(x) => seq![x],
        None => seq![],
    }
}

/// The device commands that a typed command becomes. The fields of a fader
/// command each give one, in the order mute, source, level; disabling a
/// call-me source is refused and gives none.
pub open spec fn converted(cmd: Command) -> Seq<ProxyCommand> {
    match cmd {
        Command::Mix { action, mix, source } => {
            if source.spec_is_callme() && action is Disable {
                seq![]
            } else {
                seq![ProxyCommand::Mix { action, mix_index: mix.spec_index(), source }]
            }
        },
        Command::Fader { fader, muted, source, level } => {
            let idx = fader.spec_index();
            opt_seq(
                match muted {
                    Some(m) => Some(ProxyCommand::Mute { fader_index: idx, mute: m }),
                    None => None,
                },
            ) + opt_seq(
                match source {
                    Some(s) => Some(
                        ProxyCommand::Source { fader_index: idx, source_id: s.spec_index() as u32 },
                    ),
                    None => None,
                },
            ) + opt_seq(
                match level {
                    Some(l) => Some(ProxyCommand::Level { fader_index: idx, level: l }),
                    None => None,
                },
            )
        },
        Command::Touch => seq![ProxyCommand::Touch],
    }
}

/// Turns a typed command into device commands.
pub fn convert_command(cmd: Command) -> (r: Vec<ProxyCommand>)
    ensures
        r@ == converted(cmd),
{
    match cmd {
        Command::Mix { action, mix, source } => {
            if source.is_callme() && action == MixAction::Disable {
                Vec::new()
            } else {
                let r = vec![ProxyCommand::Mix { action, mix_index: mix.to_index(), source }];
                assert(r@ =~= converted(cmd));
                r
            }
        },
        Command::Fader { fader, muted, source, level } => {
            let mut cmds: Vec<ProxyCommand> = Vec::new();
            let idx = fader.to_index();
            if let Some(m) = muted {
                cmds.push(ProxyCommand::Mute { fader_index: idx, mute: m });
            }
            if let Some(s) = source {
                cmds.push(ProxyCommand::Source { fader_index: idx, source_id: s.to_index() as u32 });
            }
            if let Some(l) = level {
                cmds.push(ProxyCommand::Level { fader_index: idx, level: l });
            }
            assert(cmds@ =~= converted(cmd));
            cmds
        },
        Command::Touch => {
            let r = vec![ProxyCommand::Touch];
            assert(r@ =~= converted(cmd));
            r
        },
    }
}

/// A word read as a number from 0 to 255.
pub open spec fn byte_arg(w: Seq<char>) -> Option<u8> {
    match unsigned_value(w, 255) {
        Some(v) => Some(v as u8),
        None => None,
    }
}

/// A word read as an unsigned 32-bit number.
pub open spec fn word_arg(w: Seq<char>) -> Option<u32> {
    match unsigned_value(w, 0xFFFF_FFFF) {
        Some(v) => Some(v as u32),
        None => None,
    }
}

/// The call-me source with a given number, 1 to 3.
pub open spec fn callme_with_index(i: u8) -> Option<Source> {
    if 1 <= i <= 3 {
        source_with_index(i)
    } else {
        None
    }
}

/// The command that a line of the legacy grammar states, if any:
/// `mute <fader> <0|1>`, `source <fader> <u32>`, `level <fader> <u32>`,
/// `touch`, `mix_link <mix> <source>`, `mix_unlink <mix> <source>`,
/// `mix_disable <mix> <source> <state>`, `callme_link <mix> <callme>` and
/// `callme_unlink <mix> <callme>`. Words past those are ignored; the state of
/// `mix_disable` must be present, may be any word and does not change the
/// command, and a call-me source cannot be disabled.
pub open spec fn legacy_command(input: Seq<char>) -> Option<ProxyCommand> {
    let p = words(input);
    if p.len() == 0 {
        None
    } else if p[0] == "touch"@ {
        Some(ProxyCommand::Touch)
    } else if p.len() < 3 {
        None
    } else if p[0] == "mute"@ {
        match (byte_arg(p[1]), byte_arg(p[2])) {
            (Some(f), Some(s)) => Some(ProxyCommand::Mute { fader_index: f, mute: s != 0 }),
            _ => None,
        }
    } else if p[0] == "source"@ {
        match (byte_arg(p[1]), word_arg(p[2])) {
            (Some(f), Some(v)) => Some(ProxyCommand::Source { fader_index: f, source_id: v }),
            _ => None,
        }
    } else if p[0] == "level"@ {
        match (byte_arg(p[1]), word_arg(p[2])) {
            (Some(f), Some(v)) => Some(ProxyCommand::Level { fader_index: f, level: v }),
            _ => None,
        }
    } else if p[0] == "mix_link"@ || p[0] == "mix_unlink"@ {
        match (byte_arg(p[1]), byte_arg(p[2])) {
            (Some(m), Some(s)) => match source_with_index(s) {
                Some(src) => Some(
                    ProxyCommand::Mix {
                        action: if p[0] == "mix_link"@ {
                            MixAction::Link
                        } else {
                            MixAction::Unlink
                        },
                        mix_index: m,
                        source: src,
                    },
                ),
                None => None,
            },
            _ => None,
        }
    } else if p[0] == "mix_disable"@ {
        if p.len() < 4 {
            None
        } else {
            match (byte_arg(p[1]), byte_arg(p[2])) {
                (Some(m), Some(s)) => match source_with_index(s) {
                    Some(src) => if src.spec_is_callme() {
                        None
                    } else {
                        Some(
                            ProxyCommand::Mix {
                                action: MixAction::Disable,
                                mix_index: m,
                                source: src,
                            },
                        )
                    },
                    None => None,
                },
                _ => None,
            }
        }
    } else if p[0] == "callme_link"@ || p[0] == "callme_unlink"@ {
        match (byte_arg(p[1]), byte_arg(p[2])) {
            (Some(m), Some(c)) => match callme_with_index(c) {
                Some(src) => Some(
                    ProxyCommand::Mix {
                        action: if p[0] == "callme_link"@ {
                            MixAction::Link
                        } else {
                            MixAction::Unlink
                        },
                        mix_index: m,
                        source: src,
                    },
                ),
                None => None,
            },
            _ => None,
        }
    } else {
        None
    }
}

fn byte_arg_of(w: &Vec<char>) -> (r: Option<u8>)
    ensures
        r == byte_arg(w@),
{
    match parse_unsigned(w, 255) {
        Some(v) => Some(v as u8),
        None => None,
    }
}

fn word_arg_of(w: &Vec<char>) -> (r: Option<u32>)
    ensures
        r == word_arg(w@),
{
    parse_unsigned(w, 0xFFFF_FFFF)
}

/// Reads one line of the legacy grammar.
pub fn parse_legacy_command(input: &str) -> (r: Option<ProxyCommand>)
    ensures
        r == legacy_command(input@),
{
    let chars = chars_of(input);
    let p = split_words(&chars);
    let ghost ws = words(input@);
    assert(p@.len() == ws.len());
    assert(forall|i: int| 0 <= i < p@.len() ==> #[trigger] p@[i]@ == ws[i]);
    if p.len() == 0 {
        return None;
    }
    let verb = &p[0];
    if word_is(verb, "touch") {
        return Some(ProxyCommand::Touch);
    }
    if p.len() < 3 {
        return None;
    }
    let a = &p[1];
    let b = &p[2];
    if word_is(verb, "mute") {
        match (byte_arg_of(a), byte_arg_of(b)) {
            (Some(f), Some(s)) => Some(ProxyCommand::Mute { fader_index: f, mute: s != 0 }),
            _ => None,
        }
    } else if word_is(verb, "source") {
        match (byte_arg_of(a), word_arg_of(b)) {
            (Some(f), Some(v)) => Some(ProxyCommand::Source { fader_index: f, source_id: v }),
            _ => None,
        }
    } else if word_is(verb, "level") {
        match (byte_arg_of(a), word_arg_of(b)) {
            (Some(f), Some(v)) => Some(ProxyCommand::Level { fader_index: f, level: v }),
            _ => None,
        }
    } else if word_is(verb, "mix_link") || word_is(verb, "mix_unlink") {
        let action = if word_is(verb, "mix_link") {
            MixAction::Link
        } else {
            MixAction::Unlink
        };
        match (byte_arg_of(a), byte_arg_of(b)) {
            (Some(m), Some(s)) => match index_to_source(s) {
                Some(src) => Some(ProxyCommand::Mix { action, mix_index: m, source: src }),
                None => None,
            },
            _ => None,
        }
    } else if word_is(verb, "mix_disable") {
        if p.len() < 4 {
            return None;
        }
        match (byte_arg_of(a), byte_arg_of(b)) {
            (Some(m), Some(s)) => match index_to_source(s) {
                Some(src) => {
                    if src.is_callme() {
                        None
                    } else {
                        Some(
                            ProxyCommand::Mix {
                                action: MixAction::Disable,
                                mix_index: m,
                                source: src,
                            },
                        )
                    }
                },
                None => None,
            },
            _ => None,
        }
    } else if word_is(verb, "callme_link") || word_is(verb, "callme_unlink") {
        let action = if word_is(verb, "callme_link") {
            MixAction::Link
        } else {
            MixAction::Unlink
        };
        match (byte_arg_of(a), byte_arg_of(b)) {
            (Some(m), Some(c)) => {
                let source = match c {
                    1 => Source::CallMe1,
                    2 => Source::CallMe2,
                    3 => Source::CallMe3,
                    _ => {
                        return None;
                    },
                };
                Some(ProxyCommand::Mix { action, mix_index: m, source })
            },
            _ => None,
        }
    } else {
        None
    }
}

/// Reads one control message: the typed command if the message decoded as
/// one, else the legacy text. Gives zero or more device commands.
pub fn parse_commands(typed: Option<Command>, input: &str) -> (r: Vec<ProxyCommand>)
    ensures
        r@ == match typed {
            Some(cmd) => converted(cmd),
            None => opt_seq(legacy_command(input@)),
        },
{
    match typed {
        Some(cmd) => convert_command(cmd),
        None => match parse_legacy_command(input) {
            Some(c) => {
                let r = vec![c];
                assert(r@ =~= seq![c]);
                r
            },
            None => Vec::new(),
        },
    }
}

} // verus!
