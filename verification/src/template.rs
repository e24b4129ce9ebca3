use vstd::prelude::*;
use vstd::string::{StrSliceExecFns, StringExecFns};
use crate::strutil::{spec_dec, u64_to_dec};

verus! {

/// The stable identifier of a delivery channel kind; together with an
/// event kind it keys the template store.
#[derive(Clone, Copy, PartialEq, Eq, Structural, Debug)]
pub enum ChannelKind {
    Email,
    WeChat,
}

/// A discrete host-lifecycle occurrence, produced by the external
/// liveness state machine and consumed once per dispatch.
#[derive(Clone, Copy, PartialEq, Eq, Structural, Debug)]
pub enum Event {
    NodeUp,
    NodeDown,
    Custom,
}

/// The tag under which an event's template is registered.
pub open spec fn tag_of(e: Event) -> Seq<char> {
    match e {
        Event::NodeUp => "online"@,
        Event::NodeDown => "offline"@,
        Event::Custom => "custom"@,
    }
}

/// The template tag of an event.
pub fn get_tag(e: &Event) -> (r: &'static str)
    ensures
        r@ == tag_of(*e),
{
    match e {
        Event::NodeUp => "online",
        Event::NodeDown => "offline",
        Event::Custom => "custom",
    }
}

/// Host identity plus the latest known metrics, the read-only input to
/// rendering.
pub struct HostStat {
    pub name: String,
    pub cpu: u64,
    pub memory_total: u64,
    pub memory_used: u64,
    pub uptime: u64,
    pub network_rx: u64,
    pub network_tx: u64,
}

/// The view of a context: each key/value pair as character sequences.
pub open spec fn ctx_view(s: Seq<(String, String)>) -> Seq<(Seq<char>, Seq<char>)> {
    s.map_values(|p: (String, String)| (p.0@, p.1@))
}

/// The context pairs exposing a host's identity and metrics to a
/// template, numeric fields as their decimal digits.
pub open spec fn host_ctx_spec(stat: HostStat) -> Seq<(Seq<char>, Seq<char>)> {
    Seq::empty()
        .push(("host_name"@, stat.name@))
        .push(("host_cpu"@, spec_dec(stat.cpu as int)))
        .push(("host_memory_total"@, spec_dec(stat.memory_total as int)))
        .push(("host_memory_used"@, spec_dec(stat.memory_used as int)))
        .push(("host_uptime"@, spec_dec(stat.uptime as int)))
        .push(("host_network_rx"@, spec_dec(stat.network_rx as int)))
        .push(("host_network_tx"@, spec_dec(stat.network_tx as int)))
}

/// Build the rendering context for a host: its name and metrics.
pub fn build_host_context(stat: &HostStat) -> (ctx: Vec<(String, String)>)
    ensures
        ctx_view(ctx@) == host_ctx_spec(*stat),
{
    let mut ctx: Vec<(String, String)> = Vec::new();
    ctx.push((String::from_str("host_name"), stat.name.clone()));
    ctx.push((String::from_str("host_cpu"), u64_to_dec(stat.cpu)));
    ctx.push((String::from_str("host_memory_total"), u64_to_dec(stat.memory_total)));
    ctx.push((String::from_str("host_memory_used"), u64_to_dec(stat.memory_used)));
    ctx.push((String::from_str("host_uptime"), u64_to_dec(stat.uptime)));
    ctx.push((String::from_str("host_network_rx"), u64_to_dec(stat.network_rx)));
    ctx.push((String::from_str("host_network_tx"), u64_to_dec(stat.network_tx)));
    proof {
        assert(ctx_view(ctx@) =~= host_ctx_spec(*stat));
    }
    ctx
}

/// Why rendering failed: no template registered under the key, or the
/// template engine rejected the source or the context (bad syntax, a
/// referenced field that is absent).
#[derive(Clone, PartialEq, Eq, Debug)]
pub enum RenderError {
    MissingTemplate,
    Failed(String),
}

/// What the template engine returns for a template source and a context:
/// the rendered text, or an error message. The outcome is a pure function
/// of the two arguments.
pub uninterp spec fn mj_render(tpl: Seq<char>, ctx: Seq<(Seq<char>, Seq<char>)>) -> Result<
    Seq<char>,
    Seq<char>,
>;

/// Relies on minijinja's `Environment::render_str` with strict undefined
/// behavior: rendering is pure, and fails on invalid syntax or on a
/// referenced context field that is absent.
#[verifier::external_body]
fn mj_render_call(tpl: &str, ctx: &Vec<(String, String)>) -> (r: Result<String, String>)
    ensures
        match r {
            Ok(s) => mj_render(tpl@, ctx_view(ctx@)) == Ok::<Seq<char>, Seq<char>>(s@),
            Err(m) => mj_render(tpl@, ctx_view(ctx@)) == Err::<Seq<char>, Seq<char>>(m@),
        },
{
    let mut env = minijinja::Environment::new();
    env.set_undefined_behavior(minijinja::UndefinedBehavior::Strict);
    let map: std::collections::BTreeMap<String, String> = ctx.iter().cloned().collect();
    match env.render_str(tpl, minijinja::value::Value::from_serialize(&map)) {
        Ok(s) => Ok(s),
        Err(e) => Err(e.to_string()),
    }
}

/// The mapping a sequence of registrations denotes: later registrations
/// of a key override earlier ones.
pub open spec fn map_of(s: Seq<(ChannelKind, Event, String)>) -> Map<
    (ChannelKind, Event),
    Seq<char>,
>
    decreases s.len(),
{
    if s.len() == 0 {
        Map::empty()
    } else {
        map_of(s.drop_last()).insert((s.last().0, s.last().1), s.last().2@)
    }
}

proof fn lemma_map_of_agree(
    s: Seq<(ChannelKind, Event, String)>,
    i: int,
    k: (ChannelKind, Event),
)
    requires
        0 <= i <= s.len(),
        forall|j: int| i <= j < s.len() ==> (s[j].0, s[j].1) != k,
    ensures
        map_of(s).contains_key(k) == map_of(s.take(i)).contains_key(k),
        map_of(s).contains_key(k) ==> map_of(s)[k] == map_of(s.take(i))[k],
    decreases s.len() - i,
{
    if i == s.len() {
        assert(s.take(i) =~= s);
    } else {
        assert(s.take(s.len() - 1) =~= s.drop_last());
        assert(s.drop_last().take(i) =~= s.take(i));
        lemma_map_of_agree(s.drop_last(), i, k);
    }
}

/// The mapping (channel-kind, event-kind) to template source, populated
/// at channel construction; registration is last-write-wins.
pub struct TemplateStore {
    entries: Vec<(ChannelKind, Event, String)>,
}

impl TemplateStore {
    pub closed spec fn view(&self) -> Map<(ChannelKind, Event), Seq<char>> {
        map_of(self.entries@)
    }

    pub fn new() -> (t: TemplateStore)
        ensures
            t@ == Map::<(ChannelKind, Event), Seq<char>>::empty(),
    {
        TemplateStore { entries: Vec::new() }
    }

    /// Register a template source under a key; a later registration of
    /// the same key wins.
    pub fn register(&mut self, ck: ChannelKind, ev: Event, source: String)
        ensures
            final(self)@ == old(self)@.insert((ck, ev), source@),
    {
        let ghost prior = self.entries@;
        self.entries.push((ck, ev, source));
        proof {
            assert(self.entries@.drop_last() =~= prior);
        }
    }

    /// The source registered under a key, if any.
    pub fn lookup(&self, ck: ChannelKind, ev: Event) -> (r: Option<String>)
        ensures
            match r {
                Some(src) => self@.contains_key((ck, ev)) && src@ == self@[(ck, ev)],
                None => !self@.contains_key((ck, ev)),
            },
    {
        let n = self.entries.len();
        let mut i: usize = n;
        while i > 0
            invariant
                i <= n,
                n == self.entries@.len(),
                forall|j: int| i <= j < n ==> (self.entries@[j].0, self.entries@[j].1) != (ck, ev),
            decreases i,
        {
            let entry = &self.entries[i - 1];
            if entry.0 == ck && entry.1 == ev {
                proof {
                    lemma_map_of_agree(self.entries@, i as int, (ck, ev));
                    assert(self.entries@.take(i as int).drop_last() =~= self.entries@.take(
                        i - 1,
                    ));
                    assert(self.entries@.take(i as int).last() == self.entries@[i - 1]);
                }
                return Some(entry.2.clone());
            }
            i -= 1;
        }
        proof {
            lemma_map_of_agree(self.entries@, 0, (ck, ev));
            assert(self.entries@.take(0) =~= Seq::<(ChannelKind, Event, String)>::empty());
        }
        None
    }
}

/// Render the template registered under a key against a context. Fails
/// closed with `MissingTemplate` when no template is registered, and with
/// the engine's message when the source or the context is rejected.
pub fn render(
    store: &TemplateStore,
    ck: ChannelKind,
    ev: Event,
    ctx: &Vec<(String, String)>,
) -> (r: Result<String, RenderError>)
    ensures
        !store@.contains_key((ck, ev)) ==> r == Err::<String, RenderError>(
            RenderError::MissingTemplate,
        ),
        store@.contains_key((ck, ev)) ==> match mj_render(store@[(ck, ev)], ctx_view(ctx@)) {
            Ok(s) => r matches Ok(out) && out@ == s,
            Err(m) => r matches Err(e) && e matches RenderError::Failed(msg) && msg@ == m,
        },
{
    match store.lookup(ck, ev) {
        None => Err(RenderError::MissingTemplate),
        Some(tpl) => match mj_render_call(tpl.as_str(), ctx) {
            Ok(s) => Ok(s),
            Err(m) => Err(RenderError::Failed(m)),
        },
    }
}

} // verus!
