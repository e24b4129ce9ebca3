use hostmon::email::{Config as EmailConfig, Email};
use hostmon::registry::{Action, Channel, DispatchItem, NotifierRegistry, Payload};
use hostmon::template::{build_host_context, get_tag, render, ChannelKind, Event, HostStat,
    RenderError, TemplateStore};
use hostmon::wechat::{json_escape, Config as WeChatConfig, WeChat};

fn host() -> HostStat {
    HostStat {
        name: String::from("web1"),
        cpu: 42,
        memory_total: 976_562,
        memory_used: 488_281,
        uptime: 3600,
        network_rx: 123,
        network_tx: 456,
    }
}

fn email_cfg(online: &str, offline: &str, custom: &str, enabled: bool) -> EmailConfig {
    EmailConfig {
        enabled,
        server: String::from("smtp.example.com"),
        username: String::from("bot@example.com"),
        password: String::from("pw123"),
        to: String::from("ops@example.com"),
        subject: String::from("host alert"),
        title: String::from("ServerStatus"),
        online_tpl: String::from(online),
        offline_tpl: String::from(offline),
        custom_tpl: String::from(custom),
    }
}

fn wechat_cfg(custom: &str, enabled: bool) -> WeChatConfig {
    WeChatConfig {
        enabled,
        corp_id: String::from("corp42"),
        corp_secret: String::from("sec456"),
        agent_id: String::from("1000002"),
        custom_tpl: String::from(custom),
    }
}

#[test]
fn event_tags() {
    assert_eq!(get_tag(&Event::NodeUp), "online");
    assert_eq!(get_tag(&Event::NodeDown), "offline");
    assert_eq!(get_tag(&Event::Custom), "custom");
}

#[test]
fn store_register_and_lookup() {
    let mut store = TemplateStore::new();
    assert!(store.lookup(ChannelKind::Email, Event::NodeUp).is_none());
    store.register(ChannelKind::Email, Event::NodeUp, String::from("a"));
    store.register(ChannelKind::WeChat, Event::Custom, String::from("b"));
    assert_eq!(store.lookup(ChannelKind::Email, Event::NodeUp).unwrap(), "a");
    assert_eq!(store.lookup(ChannelKind::WeChat, Event::Custom).unwrap(), "b");
    assert!(store.lookup(ChannelKind::Email, Event::Custom).is_none());
}

#[test]
fn store_last_write_wins() {
    let mut store = TemplateStore::new();
    store.register(ChannelKind::Email, Event::Custom, String::from("first"));
    store.register(ChannelKind::Email, Event::Custom, String::from("second"));
    assert_eq!(store.lookup(ChannelKind::Email, Event::Custom).unwrap(), "second");
}

#[test]
fn render_missing_template_fails_closed() {
    // No template registered under ("email", "custom"): rendering fails
    // with RenderError and nothing is handed to any transport.
    let store = TemplateStore::new();
    let ctx = build_host_context(&host());
    let r = render(&store, ChannelKind::Email, Event::Custom, &ctx);
    assert_eq!(r.unwrap_err(), RenderError::MissingTemplate);
}

#[test]
fn render_substitutes_context() {
    let mut store = TemplateStore::new();
    store.register(
        ChannelKind::Email,
        Event::NodeUp,
        String::from("host {{host_name}} cpu {{host_cpu}}% rx {{host_network_rx}}"),
    );
    let ctx = build_host_context(&host());
    let out = render(&store, ChannelKind::Email, Event::NodeUp, &ctx).unwrap();
    assert_eq!(out, "host web1 cpu 42% rx 123");
}

#[test]
fn render_missing_field_fails() {
    let mut store = TemplateStore::new();
    store.register(ChannelKind::Email, Event::NodeUp, String::from("{{ no_such_field }}"));
    let ctx = build_host_context(&host());
    let r = render(&store, ChannelKind::Email, Event::NodeUp, &ctx);
    assert!(matches!(r, Err(RenderError::Failed(_))));
}

#[test]
fn render_bad_syntax_fails() {
    let mut store = TemplateStore::new();
    store.register(ChannelKind::Email, Event::NodeUp, String::from("{% if %}"));
    let ctx = build_host_context(&host());
    let r = render(&store, ChannelKind::Email, Event::NodeUp, &ctx);
    assert!(matches!(r, Err(RenderError::Failed(_))));
}

#[test]
fn email_registers_all_templates() {
    let em = Email::new(email_cfg("up {{host_name}}", "down {{host_name}}", "c", true));
    assert_eq!(em.kind(), "email");
    assert_eq!(em.templates.lookup(ChannelKind::Email, Event::NodeUp).unwrap(), "up {{host_name}}");
    assert_eq!(
        em.templates.lookup(ChannelKind::Email, Event::NodeDown).unwrap(),
        "down {{host_name}}"
    );
    assert_eq!(em.templates.lookup(ChannelKind::Email, Event::Custom).unwrap(), "c");
}

#[test]
fn email_composes_node_transition() {
    let em = Email::new(email_cfg("host {{host_name}} is up", "x", "c", true));
    let msg = em.compose(&Event::NodeUp, &host()).unwrap().unwrap();
    assert_eq!(msg.from, "ServerStatus <bot@example.com>");
    assert_eq!(msg.to, "ops@example.com");
    assert_eq!(msg.subject, "host alert");
    assert_eq!(msg.html, "host web1 is up");
}

#[test]
fn email_custom_prefixes_title() {
    let em = Email::new(email_cfg("a", "b", "alert {{host_name}}", true));
    let msg = em.compose(&Event::Custom, &host()).unwrap().unwrap();
    assert_eq!(msg.html, "ServerStatus\nalert web1");
}

#[test]
fn email_empty_custom_render_suppresses_delivery() {
    // A Custom-event template that evaluates to the empty string is
    // nothing to send: no message is composed, not an error.
    let em = Email::new(email_cfg("a", "b", "", true));
    assert!(em.compose(&Event::Custom, &host()).unwrap().is_none());
    let trimmed = Email::new(email_cfg("a", "b", "{% if false %}x{% endif %}", true));
    assert!(trimmed.compose(&Event::Custom, &host()).unwrap().is_none());
}

#[test]
fn email_notify_test_message() {
    let em = Email::new(email_cfg("a", "b", "c", true));
    let msg = em.notify_test();
    assert_eq!(msg.html, "\u{2757}ServerStatus test msg");
    assert_eq!(msg.from, "ServerStatus <bot@example.com>");
}

#[test]
fn wechat_fixed_node_texts() {
    let w = WeChat::new(wechat_cfg("c", true));
    assert_eq!(w.kind(), "wechat");
    let up = w.compose(&Event::NodeUp, &host()).unwrap().unwrap();
    assert_eq!(up, "\u{2757}Server Status\n\u{2757} web1 \u{4e3b}\u{673a}\u{4e0a}\u{7ebf} \u{1f7e2}");
    let down = w.compose(&Event::NodeDown, &host()).unwrap().unwrap();
    assert_eq!(
        down,
        "\u{2757}Server Status\n\u{2757} web1 \u{4e3b}\u{673a}\u{4e0b}\u{7ebf} \u{1f534}"
    );
}

#[test]
fn wechat_custom_render_and_suppression() {
    let w = WeChat::new(wechat_cfg("cpu {{host_cpu}}", true));
    let text = w.compose(&Event::Custom, &host()).unwrap().unwrap();
    assert_eq!(text, "\u{2757}Server Status\ncpu 42");
    let empty = WeChat::new(wechat_cfg("", true));
    assert!(empty.compose(&Event::Custom, &host()).unwrap().is_none());
}

#[test]
fn json_escaping() {
    assert_eq!(json_escape("plain"), "plain");
    assert_eq!(json_escape("a\"b\\c"), "a\\\"b\\\\c");
    assert_eq!(json_escape("line\nbreak\ttab\rcr"), "line\\nbreak\\ttab\\rcr");
    assert_eq!(json_escape("\u{1}\u{1f}"), "\\u0001\\u001f");
    assert_eq!(json_escape("\u{4e3b}"), "\u{4e3b}");
}

#[test]
fn wechat_token_request_body() {
    let w = WeChat::new(wechat_cfg("c", true));
    let req = w.token_request();
    assert_eq!(req.url, "https://qyapi.weixin.qq.com/cgi-bin/gettoken");
    assert_eq!(req.body, "{\"corpid\":\"corp42\",\"corpsecret\":\"sec456\"}");
}

#[test]
fn wechat_token_response_drives_send_step() {
    let w = WeChat::new(wechat_cfg("c", true));
    let body = "{\"access_token\":\"tok123\",\"expires_in\":7200}";
    let req = w.on_token_response(body, "hello \"ops\"").unwrap();
    assert_eq!(
        req.url,
        "https://qyapi.weixin.qq.com/cgi-bin/message/send?access_token=tok123"
    );
    assert_eq!(
        req.body,
        "{\"touser\":\"@all\",\"agentid\":\"1000002\",\"msgtype\":\"text\",\"text\":{\"content\":\"hello \\\"ops\\\"\"},\"safe\":0}"
    );
    // Without a token there is no second step.
    assert!(w.on_token_response("{}", "hello").is_none());
    assert!(w.on_token_response("not json", "hello").is_none());
    assert!(w.on_token_response("{\"access_token\":5}", "hello").is_none());
}

fn run_transports(plan: &[DispatchItem], wechat_transport_fails: bool) -> Vec<(ChannelKind, bool)> {
    // Stand-in for the background delivery tasks: records, per channel,
    // whether its transport reported success.
    let mut outcomes = Vec::new();
    for item in plan {
        if let Action::Deliver(p) = &item.action {
            let ok = match p {
                Payload::Email(_) => true,
                Payload::WeChatText(_) => !wechat_transport_fails,
            };
            outcomes.push((item.kind, ok));
        }
    }
    outcomes
}

#[test]
fn fanout_isolation_one_failing_channel() {
    let mut reg = NotifierRegistry::new();
    reg.add(Channel::WeChat(WeChat::new(wechat_cfg("c", true))));
    reg.add(Channel::Email(Email::new(email_cfg("up", "down {{host_name}}", "c", true))));
    let plan = reg.dispatch(&Event::NodeDown, &host());
    assert_eq!(plan.len(), 2);
    // The wechat transport fails on every call; the healthy email channel
    // still records exactly one successful delivery.
    let outcomes = run_transports(&plan, true);
    let successes: Vec<_> = outcomes.iter().filter(|(_, ok)| *ok).collect();
    assert_eq!(successes.len(), 1);
    assert_eq!(successes[0].0, ChannelKind::Email);
}

#[test]
fn dispatch_skips_disabled_channels() {
    let mut reg = NotifierRegistry::new();
    reg.add(Channel::Email(Email::new(email_cfg("a", "b", "c", false))));
    reg.add(Channel::WeChat(WeChat::new(wechat_cfg("c", true))));
    let plan = reg.dispatch(&Event::NodeUp, &host());
    assert_eq!(plan.len(), 1);
    assert_eq!(plan[0].kind, ChannelKind::WeChat);
}

#[test]
fn failed_render_yields_no_delivery() {
    // A custom template with bad syntax: the plan records the failure and
    // hands nothing to any transport.
    let mut reg = NotifierRegistry::new();
    reg.add(Channel::Email(Email::new(email_cfg("a", "b", "{% if %}", true))));
    let plan = reg.dispatch(&Event::Custom, &host());
    assert_eq!(plan.len(), 1);
    assert!(matches!(plan[0].action, Action::RenderFailed(RenderError::Failed(_))));
    assert!(run_transports(&plan, false).is_empty());
}

#[test]
fn dispatch_returns_without_touching_transports() {
    // Dispatch only plans; an arbitrarily slow transport is consulted
    // only afterwards, by the background tasks, so dispatch returns in
    // bounded time however slow a transport is.
    let mut reg = NotifierRegistry::new();
    reg.add(Channel::Email(Email::new(email_cfg("up", "down", "c", true))));
    reg.add(Channel::WeChat(WeChat::new(wechat_cfg("cpu {{host_cpu}}", true))));
    let mut delayed_transport_calls: u32 = 0;
    let plan = reg.dispatch(&Event::Custom, &host());
    // The plan is complete, yet no transport ran while dispatch did.
    assert_eq!(plan.len(), 2);
    assert_eq!(delayed_transport_calls, 0);
    for item in &plan {
        if matches!(item.action, Action::Deliver(_)) {
            delayed_transport_calls += 1;
        }
    }
    assert_eq!(delayed_transport_calls, 2);
}
