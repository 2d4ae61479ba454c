//! Mix routing commands: link, unlink and disable a source on a mix bus.
//!
//! A link is sent as two payloads, an enable then the link request, because
//! the device refuses a link while the route is disabled. Call-me sources take
//! a layout of their own with a fixed session id, and cannot be disabled.

use crate::names::Source;
use crate::protocol::{push_tag, tag, wrap8, RodeCommand};
use vstd::prelude::*;

verus! {

/// What a mix command does to a route.
#[derive(Debug, Clone, Copy, PartialEq, Eq, Structural)]
pub enum MixAction {
    /// Make the route active (sent as enable, then link).
    Link,
    /// Set the route to unlinked, a fixed level.
    Unlink,
    /// Mute the route.
    Disable,
}

/// The route byte of a regular mix command: `source * 13 + mix`, modulo 256.
pub open spec fn mix_prefix(source_index: u8, mix_index: u8) -> u8 {
    wrap8(source_index * 13 + mix_index)
}

/// The fixed session id that call-me commands carry.
pub open spec fn callme_session_id() -> Seq<u8> {
    seq![1u8, 1u8, 1u8, 2u8]
}

/// The bytes after a link or unlink request name.
pub open spec fn route_tail() -> Seq<u8> {
    seq![1u8, 7u8, 8u8, 1u8, 1u8, 2u8, 1u8, 1u8, 2u8]
}

/// Enable a route: its `mixDisabled` flag set to `03`.
pub open spec fn enable_payload(sid: Seq<u8>, prefix: u8) -> Seq<u8> {
    sid + seq![prefix] + tag("mixDisabled"@) + seq![1u8, 1u8, 3u8]
}

/// Disable a route: its `mixDisabled` flag set to `02`.
pub open spec fn disable_payload(sid: Seq<u8>, prefix: u8) -> Seq<u8> {
    sid + seq![prefix] + tag("mixDisabled"@) + seq![1u8, 1u8, 2u8]
}

/// Ask for a route to be linked.
pub open spec fn link_payload(sid: Seq<u8>, prefix: u8) -> Seq<u8> {
    sid + seq![prefix] + tag("mixLinkRequest"@) + route_tail()
}

/// Ask for a route to be unlinked.
pub open spec fn unlink_payload(sid: Seq<u8>, prefix: u8) -> Seq<u8> {
    sid + seq![prefix] + tag("mixUnlinkRequest"@) + route_tail()
}

/// Link or unlink a call-me source: fixed session id, then `4 + mix` and the
/// call-me number.
pub open spec fn callme_payload(action: MixAction, mix_index: u8, callme_index: u8) -> Seq<u8> {
    callme_session_id() + seq![wrap8(4 + mix_index), callme_index] + if action is Link {
        tag("mixLinkRequest"@)
    } else {
        tag("mixUnlinkRequest"@)
    } + route_tail()
}

/// The payloads of a mix command, in the order they are sent. A call-me
/// source cannot be disabled: that command has none.
pub open spec fn mix_payloads(action: MixAction, mix_index: u8, source: Source, sid: Seq<u8>) -> Seq<
    Seq<u8>,
> {
    if source.spec_is_callme() {
        if action is Disable {
            seq![]
        } else {
            seq![callme_payload(action, mix_index, source.spec_index())]
        }
    } else {
        let prefix = mix_prefix(source.spec_index(), mix_index);
        match action {
            MixAction::Link => seq![enable_payload(sid, prefix), link_payload(sid, prefix)],
            MixAction::Unlink => seq![unlink_payload(sid, prefix)],
            MixAction::Disable => seq![disable_payload(sid, prefix)],
        }
    }
}

/// The contents of a list of payloads.
pub open spec fn views(v: Seq<Vec<u8>>) -> Seq<Seq<u8>> {
    v.map_values(|p: Vec<u8>| p@)
}

/// `source * 13 + mix`, modulo 256.
pub fn calculate_mix_prefix(source_index: u8, mix_index: u8) -> (r: u8)
    ensures
        r == mix_prefix(source_index, mix_index),
{
    ((source_index as u32 * 13 + mix_index as u32) % 256) as u8
}

/// One mix routing command.
pub struct MixCommand {
    pub action: MixAction,
    pub mix_index: u8,
    pub source: Source,
}

impl MixCommand {
    pub fn new(action: MixAction, mix_index: u8, source: Source) -> (r: MixCommand)
        ensures
            r.action == action,
            r.mix_index == mix_index,
            r.source == source,
    {
        MixCommand { action, mix_index, source }
    }

    /// The payloads of this command in the order they are sent.
    pub open spec fn spec_payloads(&self, sid: Seq<u8>) -> Seq<Seq<u8>> {
        mix_payloads(self.action, self.mix_index, self.source, sid)
    }

    fn prefix(&self) -> (r: u8)
        ensures
            r == mix_prefix(self.source.spec_index(), self.mix_index),
    {
        calculate_mix_prefix(self.source.to_index(), self.mix_index)
    }

    /// All payloads of this command, in order: two for a link (enable, then
    /// link), none for disabling a call-me source, one otherwise.
    pub fn build_payloads(&self, session_id: &[u8]) -> (r: Vec<Vec<u8>>)
        ensures
            views(r@) == self.spec_payloads(session_id@),
    {
        let r: Vec<Vec<u8>> = if self.source.is_callme() {
            match self.action {
                MixAction::Disable => Vec::new(),
                _ => vec![self.build_callme_payload()],
            }
        } else {
            match self.action {
                MixAction::Link => vec![
                    self.build_enable_payload(session_id),
                    self.build_link_payload(session_id),
                ],
                _ => vec![self.build_regular_payload(session_id)],
            }
        };
        assert(views(r@) =~= self.spec_payloads(session_id@));
        r
    }

    fn build_enable_payload(&self, session_id: &[u8]) -> (r: Vec<u8>)
        ensures
            r@ == enable_payload(session_id@, mix_prefix(self.source.spec_index(), self.mix_index)),
    {
        proof {
            reveal_strlit("mixDisabled");
        }
        let mut payload: Vec<u8> = Vec::new();
        payload.extend_from_slice(session_id);
        payload.push(self.prefix());
        push_tag(&mut payload, "mixDisabled");
        payload.push(0x01);
        payload.push(0x01);
        payload.push(0x03);
        assert(payload@ =~= enable_payload(
            session_id@,
            mix_prefix(self.source.spec_index(), self.mix_index),
        ));
        payload
    }

    fn build_link_payload(&self, session_id: &[u8]) -> (r: Vec<u8>)
        ensures
            r@ == link_payload(session_id@, mix_prefix(self.source.spec_index(), self.mix_index)),
    {
        proof {
            reveal_strlit("mixLinkRequest");
        }
        let mut payload: Vec<u8> = Vec::new();
        payload.extend_from_slice(session_id);
        payload.push(self.prefix());
        push_tag(&mut payload, "mixLinkRequest");
        push_route_tail(&mut payload);
        assert(payload@ =~= link_payload(
            session_id@,
            mix_prefix(self.source.spec_index(), self.mix_index),
        ));
        payload
    }

    /// The single payload of an unlink or a disable.
    fn build_regular_payload(&self, session_id: &[u8]) -> (r: Vec<u8>)
        requires
            !(self.action is Link),
        ensures
            r@ == (if self.action is Unlink {
                unlink_payload(session_id@, mix_prefix(self.source.spec_index(), self.mix_index))
            } else {
                disable_payload(session_id@, mix_prefix(self.source.spec_index(), self.mix_index))
            }),
    {
        proof {
            reveal_strlit("mixUnlinkRequest");
            reveal_strlit("mixDisabled");
        }
        let prefix = self.prefix();
        let mut payload: Vec<u8> = Vec::new();
        payload.extend_from_slice(session_id);
        payload.push(prefix);
        match self.action {
            MixAction::Unlink => {
                push_tag(&mut payload, "mixUnlinkRequest");
                push_route_tail(&mut payload);
                assert(payload@ =~= unlink_payload(session_id@, prefix));
            },
            _ => {
                push_tag(&mut payload, "mixDisabled");
                payload.push(0x01);
                payload.push(0x01);
                payload.push(0x02);
                assert(payload@ =~= disable_payload(session_id@, prefix));
            },
        }
        payload
    }

    /// The payload of a call-me link or unlink.
    fn build_callme_payload(&self) -> (r: Vec<u8>)
        requires
            !(self.action is Disable),
        ensures
            r@ == callme_payload(self.action, self.mix_index, self.source.spec_index()),
    {
        proof {
            reveal_strlit("mixLinkRequest");
            reveal_strlit("mixUnlinkRequest");
        }
        let mut payload: Vec<u8> = Vec::new();
        payload.push(0x01);
        payload.push(0x01);
        payload.push(0x01);
        payload.push(0x02);
        payload.push(((4 + self.mix_index as u32) % 256) as u8);
        payload.push(self.source.to_index());
        match self.action {
            MixAction::Link => push_tag(&mut payload, "mixLinkRequest"),
            _ => push_tag(&mut payload, "mixUnlinkRequest"),
        }
        push_route_tail(&mut payload);
        assert(payload@ =~= callme_payload(self.action, self.mix_index, self.source.spec_index()));
        payload
    }
}

/// Appends the bytes that follow a link or unlink request name.
fn push_route_tail(buf: &mut Vec<u8>)
    ensures
        final(buf)@ == old(buf)@ + route_tail(),
{
    buf.push(0x01);
    buf.push(0x07);
    buf.push(0x08);
    buf.push(0x01);
    buf.push(0x01);
    buf.push(0x02);
    buf.push(0x01);
    buf.push(0x01);
    buf.push(0x02);
    assert(final(buf)@ =~= old(buf)@ + route_tail());
}

impl RodeCommand for MixCommand {
    /// The first payload of the command, or nothing when it has none.
    open spec fn spec_payload(&self, session_id: Seq<u8>) -> Seq<u8> {
        if self.spec_payloads(session_id).len() > 0 {
            self.spec_payloads(session_id)[0]
        } else {
            seq![]
        }
    }

    fn build_payload(&self, session_id: &[u8]) -> (r: Vec<u8>) {
        let mut all = self.build_payloads(session_id);
        if all.len() > 0 {
            all.swap_remove(0)
        } else {
            Vec::new()
        }
    }
}

/// `s` ends with the bytes `t`.
pub open spec fn ends_with(s: Seq<u8>, t: Seq<u8>) -> bool {
    s.len() >= t.len() && s.subrange(s.len() - t.len(), s.len() as int) == t
}

/// The bytes `t` occur in `s` starting at `k`.
pub open spec fn occurs_at(s: Seq<u8>, t: Seq<u8>, k: int) -> bool {
    0 <= k && k + t.len() <= s.len() && s.subrange(k, k + t.len()) == t
}

/// The bytes `t` occur somewhere in `s`.
pub open spec fn contains_run(s: Seq<u8>, t: Seq<u8>) -> bool {
    exists|k: int| occurs_at(s, t, k)
}

/// For a regular source, the link request carries `mixLinkRequest\0` right
/// after a single byte equal to `(source_index * 13 + mix_index) mod 256`.
pub proof fn lemma_link_prefix(source: Source, mix_index: u8, sid: Seq<u8>)
    requires
        !source.spec_is_callme(),
    ensures
        ({
            let link = mix_payloads(MixAction::Link, mix_index, source, sid)[1];
            let k = sid.len() as int;
            &&& link[k] == (source.spec_index() * 13 + mix_index) % 256
            &&& occurs_at(link, tag("mixLinkRequest"@), k + 1)
        }),
{
    let link = mix_payloads(MixAction::Link, mix_index, source, sid)[1];
    let k = sid.len() as int;
    let t = tag("mixLinkRequest"@);
    assert(link.subrange(k + 1, k + 1 + t.len()) =~= t);
}

/// A link makes two payloads, the enable (`mixDisabled\0` then `01 01 03`)
/// before the link request; an unlink makes one that holds
/// `mixUnlinkRequest\0`; a disable makes one that ends `mixDisabled\0 01 01 02`.
pub proof fn lemma_link_duality(source: Source, mix_index: u8, sid: Seq<u8>)
    requires
        !source.spec_is_callme(),
    ensures
        ({
            let link = mix_payloads(MixAction::Link, mix_index, source, sid);
            let unlink = mix_payloads(MixAction::Unlink, mix_index, source, sid);
            let disable = mix_payloads(MixAction::Disable, mix_index, source, sid);
            &&& link.len() == 2
            &&& ends_with(link[0], tag("mixDisabled"@) + seq![1u8, 1u8, 3u8])
            &&& contains_run(link[1], tag("mixLinkRequest"@))
            &&& unlink.len() == 1
            &&& contains_run(unlink[0], tag("mixUnlinkRequest"@))
            &&& disable.len() == 1
            &&& ends_with(disable[0], tag("mixDisabled"@) + seq![1u8, 1u8, 2u8])
        }),
{
    let prefix = mix_prefix(source.spec_index(), mix_index);
    let k = sid.len() as int + 1;
    let enable = enable_payload(sid, prefix);
    let off = tag("mixDisabled"@) + seq![1u8, 1u8, 3u8];
    assert(enable.subrange(enable.len() - off.len(), enable.len() as int) =~= off);
    let disable = disable_payload(sid, prefix);
    let on = tag("mixDisabled"@) + seq![1u8, 1u8, 2u8];
    assert(disable.subrange(disable.len() - on.len(), disable.len() as int) =~= on);
    let link = link_payload(sid, prefix);
    let lt = tag("mixLinkRequest"@);
    assert(link.subrange(k, k + lt.len()) =~= lt);
    assert(occurs_at(link, lt, k));
    let unlink = unlink_payload(sid, prefix);
    let ut = tag("mixUnlinkRequest"@);
    assert(unlink.subrange(k, k + ut.len()) =~= ut);
    assert(occurs_at(unlink, ut, k));
}

/// A call-me source ignores the session id: each of its payloads starts with
/// `01 01 01 02`, then `4 + mix_index` and the call-me number. Disabling one
/// is refused, with no payload at all.
pub proof fn lemma_callme_layout(action: MixAction, mix_index: u8, source: Source, sid: Seq<u8>)
    requires
        source.spec_is_callme(),
    ensures
        ({
            let ps = mix_payloads(action, mix_index, source, sid);
            &&& ps.len() == 0 <==> action is Disable
            &&& forall|i: int|
                0 <= i < ps.len() ==> (#[trigger] ps[i]).subrange(0, 6) == callme_session_id()
                    + seq![wrap8(4 + mix_index), source.spec_index()]
            &&& 1 <= source.spec_index() <= 3
        }),
{
    let p = callme_payload(action, mix_index, source.spec_index());
    assert(p.subrange(0, 6) =~= callme_session_id() + seq![
        wrap8(4 + mix_index),
        source.spec_index(),
    ]);
}

} // verus!
