use vstd::prelude::*;
use vstd::string::{StrSliceExecFns, StringExecFns};
use crate::template::{ChannelKind, Event, HostStat, RenderError, TemplateStore, build_host_context,
    host_ctx_spec, mj_render, render};

verus! {

/// Static configuration of the IM webhook channel: the long-lived
/// credentials exchanged for a short-lived token, immutable for the
/// channel's lifetime.
pub struct Config {
    pub enabled: bool,
    pub corp_id: String,
    pub corp_secret: String,
    pub agent_id: String,
    pub custom_tpl: String,
}

/// One HTTP step of the webhook protocol: a JSON body to POST to a URL.
pub struct HttpRequest {
    pub url: String,
    pub body: String,
}

/// The hexadecimal digit `d` (0 to 15) as a character.
pub open spec fn hex_char(d: int) -> char {
    if d == 0 { '0' }
    else if d == 1 { '1' }
    else if d == 2 { '2' }
    else if d == 3 { '3' }
    else if d == 4 { '4' }
    else if d == 5 { '5' }
    else if d == 6 { '6' }
    else if d == 7 { '7' }
    else if d == 8 { '8' }
    else if d == 9 { '9' }
    else if d == 10 { 'a' }
    else if d == 11 { 'b' }
    else if d == 12 { 'c' }
    else if d == 13 { 'd' }
    else if d == 14 { 'e' }
    else { 'f' }
}

/// How one character is written inside a JSON string literal: quote and
/// backslash get a backslash escape, the common control characters their
/// short escapes, other control characters the \u00XX form, and every
/// other character stands as itself.
pub open spec fn esc_char(c: char) -> Seq<char> {
    if c == '"' { seq!['\\', '"'] }
    else if c == '\\' { seq!['\\', '\\'] }
    else if c == '\n' { seq!['\\', 'n'] }
    else if c == '\r' { seq!['\\', 'r'] }
    else if c == '\t' { seq!['\\', 't'] }
    else if (c as u32) < 32 {
        seq!['\\', 'u', '0', '0', hex_char(c as u32 as int / 16), hex_char(c as u32 as int % 16)]
    } else {
        seq![c]
    }
}

/// A whole string as it is written inside a JSON string literal.
pub open spec fn json_escaped(s: Seq<char>) -> Seq<char>
    decreases s.len(),
{
    if s.len() == 0 {
        Seq::empty()
    } else {
        json_escaped(s.drop_last()) + esc_char(s.last())
    }
}

fn hex_digit(d: u8) -> (r: &'static str)
    requires
        d < 16,
    ensures
        r@ == seq![hex_char(d as int)],
{
    proof {
        reveal_strlit("0"); reveal_strlit("1"); reveal_strlit("2"); reveal_strlit("3");
        reveal_strlit("4"); reveal_strlit("5"); reveal_strlit("6"); reveal_strlit("7");
        reveal_strlit("8"); reveal_strlit("9"); reveal_strlit("a"); reveal_strlit("b");
        reveal_strlit("c"); reveal_strlit("d"); reveal_strlit("e"); reveal_strlit("f");
    }
    let r: &'static str = match d {
        0 => "0",
        1 => "1",
        2 => "2",
        3 => "3",
        4 => "4",
        5 => "5",
        6 => "6",
        7 => "7",
        8 => "8",
        9 => "9",
        10 => "a",
        11 => "b",
        12 => "c",
        13 => "d",
        14 => "e",
        _ => "f",
    };
    proof {
        assert(r@ =~= seq![hex_char(d as int)]);
    }
    r
}

/// Escape a string for inclusion in a JSON string literal.
pub fn json_escape(s: &str) -> (r: String)
    ensures
        r@ == json_escaped(s@),
{
    let n = s.unicode_len();
    let mut out = String::new();
    let mut i: usize = 0;
    while i < n
        invariant
            n == s@.len(),
            i <= n,
            out@ == json_escaped(s@.take(i as int)),
        decreases n - i,
    {
        let c = s.get_char(i);
        if c == '"' {
            out.append("\\\"");
            proof {
                reveal_strlit("\\\"");
                assert("\\\""@ =~= esc_char(c));
            }
        } else if c == '\\' {
            out.append("\\\\");
            proof {
                reveal_strlit("\\\\");
                assert("\\\\"@ =~= esc_char(c));
            }
        } else if c == '\n' {
            out.append("\\n");
            proof {
                reveal_strlit("\\n");
                assert("\\n"@ =~= esc_char(c));
            }
        } else if c == '\r' {
            out.append("\\r");
            proof {
                reveal_strlit("\\r");
                assert("\\r"@ =~= esc_char(c));
            }
        } else if c == '\t' {
            out.append("\\t");
            proof {
                reveal_strlit("\\t");
                assert("\\t"@ =~= esc_char(c));
            }
        } else if (c as u32) < 32 {
            let code = c as u32;
            out.append("\\u00");
            out.append(hex_digit((code / 16) as u8));
            out.append(hex_digit((code % 16) as u8));
            proof {
                reveal_strlit("\\u00");
                assert("\\u00"@ + seq![hex_char(code as int / 16)] + seq![
                    hex_char(code as int % 16),
                ] =~= esc_char(c));
            }
        } else {
            let piece = s.substring_char(i, i + 1);
            out.append(piece);
            proof {
                assert(s@.subrange(i as int, i + 1) =~= seq![s@[i as int]]);
                assert(seq![s@[i as int]] =~= esc_char(c));
            }
        }
        proof {
            assert(s@.take(i + 1).drop_last() =~= s@.take(i as int));
            assert(s@.take(i + 1).last() == s@[i as int]);
        }
        i += 1;
    }
    proof {
        assert(s@.take(n as int) =~= s@);
    }
    out
}

/// The JSON body of the token exchange: the long-lived credentials.
pub open spec fn token_body_spec(corp_id: Seq<char>, corp_secret: Seq<char>) -> Seq<char> {
    "{\"corpid\":\""@ + json_escaped(corp_id) + "\",\"corpsecret\":\""@ + json_escaped(corp_secret)
        + "\"}"@
}

/// The JSON body of the message send step: a text message to every user
/// of the configured agent.
pub open spec fn message_body_spec(agent_id: Seq<char>, content: Seq<char>) -> Seq<char> {
    "{\"touser\":\"@all\",\"agentid\":\""@ + json_escaped(agent_id)
        + "\",\"msgtype\":\"text\",\"text\":{\"content\":\""@ + json_escaped(content)
        + "\"},\"safe\":0}"@
}

/// The access token inside a token-exchange response body, if the body is
/// a JSON object whose "access_token" member is a string. A pure function
/// of the body text.
pub uninterp spec fn token_of(body: Seq<char>) -> Option<Seq<char>>;

/// Relies on serde_json's `from_str` and `Value::as_str`: whether the
/// response body parses as a JSON object carrying a string member named
/// "access_token", and that member's text.
#[verifier::external_body]
fn extract_token_call(body: &str) -> (r: Option<String>)
    ensures
        match r {
            Some(t) => token_of(body@) == Some(t@),
            None => token_of(body@) is None,
        },
{
    let parsed: Result<std::collections::HashMap<String, serde_json::Value>, _> =
        serde_json::from_str(body);
    match parsed {
        Ok(map) => match map.get("access_token") {
            Some(v) => v.as_str().map(|s| s.to_owned()),
            None => None,
        },
        Err(_) => None,
    }
}

/// Exactly what `WeChat::compose` returns: the text to deliver. Node
/// transitions use fixed text; a custom event renders the user template,
/// suppresses delivery when the rendering is empty, and returns a
/// rendering failure to be logged, never delivered.
pub open spec fn wechat_compose_ok(
    w: WeChat,
    e: Event,
    stat: HostStat,
    r: Result<Option<String>, RenderError>,
) -> bool {
    match e {
        Event::NodeUp => r matches Ok(Some(s)) && s@ == "❗Server Status\n❗ "@ + stat.name@
            + " 主机上线 🟢"@,
        Event::NodeDown => r matches Ok(Some(s)) && s@ == "❗Server Status\n❗ "@ + stat.name@
            + " 主机下线 🔴"@,
        Event::Custom => {
            let k = (ChannelKind::WeChat, Event::Custom);
            if !w.templates@.contains_key(k) {
                r == Err::<Option<String>, RenderError>(RenderError::MissingTemplate)
            } else {
                match mj_render(w.templates@[k], host_ctx_spec(stat)) {
                    Ok(s) => if s.len() == 0 {
                        r matches Ok(o) && o is None
                    } else {
                        r matches Ok(Some(t)) && t@ == "❗Server Status\n"@ + s
                    },
                    Err(msg) => r matches Err(err) && err matches RenderError::Failed(t) && t@
                        == msg,
                }
            }
        }
    }
}

/// The IM webhook delivery channel: its configuration and the template it
/// registered at construction.
pub struct WeChat {
    pub config: Config,
    pub templates: TemplateStore,
}

impl WeChat {
    /// Construct the channel and register its custom-event template.
    pub fn new(cfg: Config) -> (o: WeChat)
        ensures
            o.config == cfg,
            o.templates@ == Map::<(ChannelKind, Event), Seq<char>>::empty()
                .insert((ChannelKind::WeChat, Event::Custom), cfg.custom_tpl@),
    {
        let mut templates = TemplateStore::new();
        templates.register(ChannelKind::WeChat, Event::Custom, cfg.custom_tpl.clone());
        WeChat { config: cfg, templates }
    }

    /// The channel's stable identifier, also its template key prefix.
    pub fn kind(&self) -> (r: &'static str)
        ensures
            r@ == "wechat"@,
    {
        "wechat"
    }

    /// Decide the text this event asks the transport to deliver, without
    /// performing any delivery. `Ok(None)` means delivery is suppressed:
    /// an empty custom rendering is nothing to send, not an error.
    pub fn compose(&self, e: &Event, stat: &HostStat) -> (r: Result<Option<String>, RenderError>)
        ensures
            wechat_compose_ok(*self, *e, *stat, r),
    {
        match e {
            Event::NodeUp => {
                let mut text = String::from_str("❗Server Status\n❗ ");
                text.append(stat.name.as_str());
                text.append(" 主机上线 🟢");
                Ok(Some(text))
            }
            Event::NodeDown => {
                let mut text = String::from_str("❗Server Status\n❗ ");
                text.append(stat.name.as_str());
                text.append(" 主机下线 🔴");
                Ok(Some(text))
            }
            Event::Custom => {
                let ctx = build_host_context(stat);
                match render(&self.templates, ChannelKind::WeChat, Event::Custom, &ctx) {
                    Err(err) => Err(err),
                    Ok(content) => {
                        if content.as_str().is_empty() {
                            Ok(None)
                        } else {
                            let mut text = String::from_str("❗Server Status\n");
                            text.append(content.as_str());
                            Ok(Some(text))
                        }
                    }
                }
            }
        }
    }

    /// The first protocol step: exchange the long-lived credentials for a
    /// short-lived access token.
    pub fn token_request(&self) -> (r: HttpRequest)
        ensures
            r.url@ == "https://qyapi.weixin.qq.com/cgi-bin/gettoken"@,
            r.body@ == token_body_spec(self.config.corp_id@, self.config.corp_secret@),
    {
        let mut body = String::from_str("{\"corpid\":\"");
        let id = json_escape(self.config.corp_id.as_str());
        body.append(id.as_str());
        body.append("\",\"corpsecret\":\"");
        let secret = json_escape(self.config.corp_secret.as_str());
        body.append(secret.as_str());
        body.append("\"}");
        HttpRequest { url: String::from_str("https://qyapi.weixin.qq.com/cgi-bin/gettoken"), body }
    }

    /// The second protocol step, decided from the first step's response:
    /// with a token, POST the text to the send endpoint; without one,
    /// stop — there is nothing to authenticate with.
    pub fn on_token_response(&self, body: &str, content: &str) -> (r: Option<HttpRequest>)
        ensures
            match r {
                Some(req) => {
                    &&& token_of(body@) matches Some(t) && req.url@
                        == "https://qyapi.weixin.qq.com/cgi-bin/message/send?access_token="@ + t
                    &&& req.body@ == message_body_spec(self.config.agent_id@, content@)
                },
                None => token_of(body@) is None,
            },
    {
        match extract_token_call(body) {
            None => None,
            Some(token) => {
                let mut url = String::from_str(
                    "https://qyapi.weixin.qq.com/cgi-bin/message/send?access_token=",
                );
                url.append(token.as_str());
                let mut msg = String::from_str("{\"touser\":\"@all\",\"agentid\":\"");
                let agent = json_escape(self.config.agent_id.as_str());
                msg.append(agent.as_str());
                msg.append("\",\"msgtype\":\"text\",\"text\":{\"content\":\"");
                let text = json_escape(content);
                msg.append(text.as_str());
                msg.append("\"},\"safe\":0}");
                Some(HttpRequest { url, body: msg })
            }
        }
    }
}

} // verus!
