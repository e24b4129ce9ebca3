use vstd::prelude::*;
use crate::email::{Email, EmailMessage, email_compose_ok};
use crate::template::{ChannelKind, Event, HostStat, RenderError};
use crate::wechat::{WeChat, wechat_compose_ok};

verus! {

/// The closed set of delivery channels the registry can own.
pub enum Channel {
    Email(Email),
    WeChat(WeChat),
}

/// What one channel asked a transport to deliver.
pub enum Payload {
    Email(EmailMessage),
    WeChatText(String),
}

/// One channel's decision for one dispatched event: hand a payload to the
/// transport, deliver nothing, or log a rendering failure.
pub enum Action {
    Deliver(Payload),
    Suppressed,
    RenderFailed(RenderError),
}

/// One channel's entry in a dispatch plan.
pub struct DispatchItem {
    pub kind: ChannelKind,
    pub action: Action,
}

/// Whether a channel takes part in dispatch.
pub open spec fn channel_enabled(c: Channel) -> bool {
    match c {
        Channel::Email(em) => em.config.enabled,
        Channel::WeChat(w) => w.config.enabled,
    }
}

/// Exactly the action a single channel records for an event: it is a
/// predicate of that channel, the event and the host alone.
pub open spec fn item_ok(c: Channel, e: Event, stat: HostStat, item: DispatchItem) -> bool {
    match c {
        Channel::Email(em) => {
            &&& item.kind == ChannelKind::Email
            &&& match item.action {
                Action::Deliver(p) => p matches Payload::Email(m) && email_compose_ok(
                    em,
                    e,
                    stat,
                    Ok(Some(m)),
                ),
                Action::Suppressed => email_compose_ok(em, e, stat, Ok(None)),
                Action::RenderFailed(err) => email_compose_ok(em, e, stat, Err(err)),
            }
        }
        Channel::WeChat(w) => {
            &&& item.kind == ChannelKind::WeChat
            &&& match item.action {
                Action::Deliver(p) => p matches Payload::WeChatText(t) && wechat_compose_ok(
                    w,
                    e,
                    stat,
                    Ok(Some(t)),
                ),
                Action::Suppressed => wechat_compose_ok(w, e, stat, Ok(None)),
                Action::RenderFailed(err) => wechat_compose_ok(w, e, stat, Err(err)),
            }
        }
    }
}

/// A dispatch plan is right for a channel set when it holds one entry per
/// enabled channel, in order, each entry right for its own channel.
pub open spec fn dispatch_ok(
    cs: Seq<Channel>,
    e: Event,
    stat: HostStat,
    out: Seq<DispatchItem>,
) -> bool
    decreases cs.len(),
{
    if cs.len() == 0 {
        out.len() == 0
    } else if !channel_enabled(cs.last()) {
        dispatch_ok(cs.drop_last(), e, stat, out)
    } else {
        &&& out.len() >= 1
        &&& dispatch_ok(cs.drop_last(), e, stat, out.drop_last())
        &&& item_ok(cs.last(), e, stat, out.last())
    }
}

/// The enabled channels of a set, in order.
pub open spec fn enabled_channels(cs: Seq<Channel>) -> Seq<Channel>
    decreases cs.len(),
{
    if cs.len() == 0 {
        Seq::empty()
    } else if channel_enabled(cs.last()) {
        enabled_channels(cs.drop_last()).push(cs.last())
    } else {
        enabled_channels(cs.drop_last())
    }
}

/// Fan-out isolation: a dispatch plan carries exactly one entry per
/// enabled channel, and each entry is fixed by its own channel alone —
/// whatever any other channel does, fails to render, or fails to
/// transport cannot change it.
pub proof fn lemma_fanout_isolation(
    cs: Seq<Channel>,
    e: Event,
    stat: HostStat,
    out: Seq<DispatchItem>,
)
    requires
        dispatch_ok(cs, e, stat, out),
    ensures
        out.len() == enabled_channels(cs).len(),
        forall|j: int| 0 <= j < out.len() ==> item_ok(enabled_channels(cs)[j], e, stat, out[j]),
    decreases cs.len(),
{
    if cs.len() > 0 {
        if !channel_enabled(cs.last()) {
            lemma_fanout_isolation(cs.drop_last(), e, stat, out);
        } else {
            lemma_fanout_isolation(cs.drop_last(), e, stat, out.drop_last());
            let en = enabled_channels(cs);
            assert(forall|j: int| 0 <= j < out.len() - 1 ==> out.drop_last()[j] == out[j]);
            assert(forall|j: int|
                0 <= j < en.len() - 1 ==> enabled_channels(cs.drop_last())[j] == en[j]);
        }
    }
}

/// The registry of constructed channels: insertion only at startup, no
/// runtime removal.
pub struct NotifierRegistry {
    pub channels: Vec<Channel>,
}

impl NotifierRegistry {
    pub fn new() -> (r: NotifierRegistry)
        ensures
            r.channels@ == Seq::<Channel>::empty(),
    {
        NotifierRegistry { channels: Vec::new() }
    }

    /// Add a constructed channel at startup.
    pub fn add(&mut self, c: Channel)
        ensures
            final(self).channels@ == old(self).channels@.push(c),
    {
        self.channels.push(c);
    }

    /// Fan an event out to every enabled channel. Each channel decides
    /// its own entry of the plan; no delivery is performed and nothing
    /// here waits on any transport, so the caller that detected the
    /// event is never blocked and one channel's failure cannot reach
    /// another's entry.
    pub fn dispatch(&self, e: &Event, stat: &HostStat) -> (plan: Vec<DispatchItem>)
        ensures
            dispatch_ok(self.channels@, *e, *stat, plan@),
    {
        let mut plan: Vec<DispatchItem> = Vec::new();
        let mut i: usize = 0;
        while i < self.channels.len()
            invariant
                i <= self.channels@.len(),
                dispatch_ok(self.channels@.take(i as int), *e, *stat, plan@),
            decreases self.channels@.len() - i,
        {
            let ghost prior = plan@;
            match &self.channels[i] {
                Channel::Email(em) => {
                    if em.config.enabled {
                        let action = match em.compose(e, stat) {
                            Ok(Some(m)) => Action::Deliver(Payload::Email(m)),
                            Ok(None) => Action::Suppressed,
                            Err(err) => Action::RenderFailed(err),
                        };
                        plan.push(DispatchItem { kind: ChannelKind::Email, action });
                    }
                }
                Channel::WeChat(w) => {
                    if w.config.enabled {
                        let action = match w.compose(e, stat) {
                            Ok(Some(t)) => Action::Deliver(Payload::WeChatText(t)),
                            Ok(None) => Action::Suppressed,
                            Err(err) => Action::RenderFailed(err),
                        };
                        plan.push(DispatchItem { kind: ChannelKind::WeChat, action });
                    }
                }
            }
            proof {
                assert(self.channels@.take(i + 1).drop_last() =~= self.channels@.take(i as int));
                assert(self.channels@.take(i + 1).last() == self.channels@[i as int]);
                if channel_enabled(self.channels@[i as int]) {
                    assert(plan@.drop_last() =~= prior);
                }
            }
            i += 1;
        }
        proof {
            assert(self.channels@.take(self.channels@.len() as int) =~= self.channels@);
        }
        plan
    }
}

} // verus!
