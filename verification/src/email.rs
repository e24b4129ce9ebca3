use vstd::prelude::*;
use vstd::string::{StrSliceExecFns, StringExecFns};
use crate::template::{ChannelKind, Event, HostStat, RenderError, TemplateStore, build_host_context,
    ctx_view, host_ctx_spec, mj_render, render};

verus! {

/// Static configuration of the email channel: one SMTP relay, one fixed
/// recipient, immutable for the channel's lifetime.
pub struct Config {
    pub enabled: bool,
    pub server: String,
    pub username: String,
    pub password: String,
    pub to: String,
    pub subject: String,
    pub title: String,
    pub online_tpl: String,
    pub offline_tpl: String,
    pub custom_tpl: String,
}

/// A fully composed mail, ready for a transport to deliver: a single
/// HTML-body MIME part.
pub struct EmailMessage {
    pub from: String,
    pub to: String,
    pub subject: String,
    pub html: String,
}

/// The email delivery channel: its configuration and the templates it
/// registered at construction, one per supported event.
pub struct Email {
    pub config: Config,
    pub templates: TemplateStore,
}

/// The context pairs an email template sees: the host, and the channel's
/// own configuration.
pub open spec fn email_ctx_spec(stat: HostStat, cfg: Config) -> Seq<(Seq<char>, Seq<char>)> {
    host_ctx_spec(stat)
        .push(("config_server"@, cfg.server@))
        .push(("config_username"@, cfg.username@))
        .push(("config_to"@, cfg.to@))
        .push(("config_subject"@, cfg.subject@))
        .push(("config_title"@, cfg.title@))
}

/// The sender line the channel writes into every mail.
pub open spec fn email_from_spec(cfg: Config) -> Seq<char> {
    "ServerStatus <"@ + cfg.username@ + ">"@
}

/// A composed mail carries the configured recipient and subject, the
/// fixed sender line, and the given HTML body.
pub open spec fn email_msg_ok(cfg: Config, html: Seq<char>, m: EmailMessage) -> bool {
    &&& m.from@ == email_from_spec(cfg)
    &&& m.to@ == cfg.to@
    &&& m.subject@ == cfg.subject@
    &&& m.html@ == html
}

/// Exactly what `Email::compose` returns. Node transitions send the
/// rendered template as the body; a custom event prefixes the configured
/// title and suppresses delivery when the rendered text is empty; a
/// rendering failure is returned to be logged, never delivered.
pub open spec fn email_compose_ok(
    em: Email,
    e: Event,
    stat: HostStat,
    r: Result<Option<EmailMessage>, RenderError>,
) -> bool {
    let k = (ChannelKind::Email, e);
    if !em.templates@.contains_key(k) {
        r == Err::<Option<EmailMessage>, RenderError>(RenderError::MissingTemplate)
    } else {
        match mj_render(em.templates@[k], email_ctx_spec(stat, em.config)) {
            Ok(s) => match e {
                Event::NodeUp | Event::NodeDown => r matches Ok(Some(m)) && email_msg_ok(
                    em.config,
                    s,
                    m,
                ),
                Event::Custom => if s.len() == 0 {
                    r matches Ok(o) && o is None
                } else {
                    r matches Ok(Some(m)) && email_msg_ok(
                        em.config,
                        em.config.title@ + "\n"@ + s,
                        m,
                    )
                },
            },
            Err(msg) => r matches Err(err) && err matches RenderError::Failed(t) && t@ == msg,
        }
    }
}

impl Email {
    /// Construct the channel and register every template it supports,
    /// keyed by its own kind and the event.
    pub fn new(cfg: Config) -> (o: Email)
        ensures
            o.config == cfg,
            o.templates@ == Map::<(ChannelKind, Event), Seq<char>>::empty()
                .insert((ChannelKind::Email, Event::NodeUp), cfg.online_tpl@)
                .insert((ChannelKind::Email, Event::NodeDown), cfg.offline_tpl@)
                .insert((ChannelKind::Email, Event::Custom), cfg.custom_tpl@),
    {
        let mut templates = TemplateStore::new();
        templates.register(ChannelKind::Email, Event::NodeUp, cfg.online_tpl.clone());
        templates.register(ChannelKind::Email, Event::NodeDown, cfg.offline_tpl.clone());
        templates.register(ChannelKind::Email, Event::Custom, cfg.custom_tpl.clone());
        Email { config: cfg, templates }
    }

    /// The channel's stable identifier, also its template key prefix.
    pub fn kind(&self) -> (r: &'static str)
        ensures
            r@ == "email"@,
    {
        "email"
    }

    /// Wrap an HTML body into a ready-to-deliver mail with the configured
    /// addressing.
    fn build_message(&self, html: String) -> (m: EmailMessage)
        ensures
            email_msg_ok(self.config, html@, m),
    {
        let mut from = String::from_str("ServerStatus <");
        from.append(self.config.username.as_str());
        from.append(">");
        EmailMessage {
            from,
            to: self.config.to.clone(),
            subject: self.config.subject.clone(),
            html,
        }
    }

    /// Decide what this event asks the transport to deliver, without
    /// performing any delivery. `Ok(None)` means delivery is suppressed:
    /// an empty custom rendering is nothing to send, not an error.
    pub fn compose(&self, e: &Event, stat: &HostStat) -> (r: Result<
        Option<EmailMessage>,
        RenderError,
    >)
        ensures
            email_compose_ok(*self, *e, *stat, r),
    {
        let ctx = self.build_context(stat);
        match render(&self.templates, ChannelKind::Email, *e, &ctx) {
            Err(err) => Err(err),
            Ok(content) => match e {
                Event::NodeUp | Event::NodeDown => Ok(Some(self.build_message(content))),
                Event::Custom => {
                    if content.as_str().is_empty() {
                        Ok(None)
                    } else {
                        let mut body = self.config.title.clone();
                        body.append("\n");
                        body.append(content.as_str());
                        Ok(Some(self.build_message(body)))
                    }
                }
            },
        }
    }

    /// The fixed probe mail sent on an operator-initiated health check.
    pub fn notify_test(&self) -> (m: EmailMessage)
        ensures
            email_msg_ok(self.config, "❗ServerStatus test msg"@, m),
    {
        self.build_message(String::from_str("❗ServerStatus test msg"))
    }

    /// The rendering context: the host, then the channel's own
    /// configuration.
    fn build_context(&self, stat: &HostStat) -> (ctx: Vec<(String, String)>)
        ensures
            ctx_view(ctx@) == email_ctx_spec(*stat, self.config),
    {
        let mut ctx = build_host_context(stat);
        ctx.push((String::from_str("config_server"), self.config.server.clone()));
        ctx.push((String::from_str("config_username"), self.config.username.clone()));
        ctx.push((String::from_str("config_to"), self.config.to.clone()));
        ctx.push((String::from_str("config_subject"), self.config.subject.clone()));
        ctx.push((String::from_str("config_title"), self.config.title.clone()));
        proof {
            assert(ctx_view(ctx@) =~= email_ctx_spec(*stat, self.config));
        }
        ctx
    }
}

} // verus!
