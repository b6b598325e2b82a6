//! The client-identity header: the browser-like properties this client
//! presents, their canonical JSON form, and the cached base64 header
//! value derived from it.

use vstd::prelude::*;
use base64::Engine;
use crate::jsonenc::{append_dec, append_json_escaped, spec_dec_digits, spec_json_escape};

verus! {

/// Build number presented until a fresher one is scraped.
pub const DEFAULT_BUILD_NUMBER: u32 = 307749;

/// The client properties sent with the identity header.
#[derive(Debug)]
pub struct SuperProperties {
    pub os: String,
    pub browser: String,
    pub device: String,
    pub system_locale: String,
    pub browser_user_agent: String,
    pub browser_version: String,
    pub os_version: String,
    pub referrer: String,
    pub referring_domain: String,
    pub referrer_current: String,
    pub referring_domain_current: String,
    pub release_channel: String,
    pub client_build_number: u32,
    pub client_event_source: Option<String>,
}

/// The canonical JSON text of the properties: every field in declaration
/// order, strings escaped, no whitespace, an unset event source as
/// `null`.
pub open spec fn spec_props_json(p: SuperProperties) -> Seq<char> {
    "{\"os\":\""@ + spec_json_escape(p.os@) + "\",\"browser\":\""@ + spec_json_escape(p.browser@)
        + "\",\"device\":\""@ + spec_json_escape(p.device@) + "\",\"system_locale\":\""@
        + spec_json_escape(p.system_locale@) + "\",\"browser_user_agent\":\""@ + spec_json_escape(
        p.browser_user_agent@,
    ) + "\",\"browser_version\":\""@ + spec_json_escape(p.browser_version@) + "\",\"os_version\":\""@
        + spec_json_escape(p.os_version@) + "\",\"referrer\":\""@ + spec_json_escape(p.referrer@)
        + "\",\"referring_domain\":\""@ + spec_json_escape(p.referring_domain@)
        + "\",\"referrer_current\":\""@ + spec_json_escape(p.referrer_current@)
        + "\",\"referring_domain_current\":\""@ + spec_json_escape(p.referring_domain_current@)
        + "\",\"release_channel\":\""@ + spec_json_escape(p.release_channel@)
        + "\",\"client_build_number\":"@ + spec_dec_digits(p.client_build_number as int)
        + ",\"client_event_source\":"@ + (match p.client_event_source {
        Some(s) => "\""@ + spec_json_escape(s@) + "\""@,
        None => "null"@,
    }) + "}"@
}

impl SuperProperties {
    /// Renders the canonical JSON text of these properties.
    pub fn to_json(&self) -> (r: String)
        ensures
            r@ == spec_props_json(*self),
    {
        let mut out = String::new();
        out.append("{\"os\":\"");
        append_json_escaped(&mut out, self.os.as_str());
        out.append("\",\"browser\":\"");
        append_json_escaped(&mut out, self.browser.as_str());
        out.append("\",\"device\":\"");
        append_json_escaped(&mut out, self.device.as_str());
        out.append("\",\"system_locale\":\"");
        append_json_escaped(&mut out, self.system_locale.as_str());
        out.append("\",\"browser_user_agent\":\"");
        append_json_escaped(&mut out, self.browser_user_agent.as_str());
        out.append("\",\"browser_version\":\"");
        append_json_escaped(&mut out, self.browser_version.as_str());
        out.append("\",\"os_version\":\"");
        append_json_escaped(&mut out, self.os_version.as_str());
        out.append("\",\"referrer\":\"");
        append_json_escaped(&mut out, self.referrer.as_str());
        out.append("\",\"referring_domain\":\"");
        append_json_escaped(&mut out, self.referring_domain.as_str());
        out.append("\",\"referrer_current\":\"");
        append_json_escaped(&mut out, self.referrer_current.as_str());
        out.append("\",\"referring_domain_current\":\"");
        append_json_escaped(&mut out, self.referring_domain_current.as_str());
        out.append("\",\"release_channel\":\"");
        append_json_escaped(&mut out, self.release_channel.as_str());
        out.append("\",\"client_build_number\":");
        append_dec(&mut out, self.client_build_number as u64);
        out.append(",\"client_event_source\":");
        match &self.client_event_source {
            Some(s) => {
                out.append("\"");
                append_json_escaped(&mut out, s.as_str());
                out.append("\"");
            },
            None => out.append("null"),
        }
        out.append("}");
        proof {
            assert(out@ =~= spec_props_json(*self));
        }
        out
    }

    /// A field-for-field copy.
    pub fn clone_props(&self) -> (r: SuperProperties)
        ensures
            r == *self,
    {
        SuperProperties {
            os: self.os.clone(),
            browser: self.browser.clone(),
            device: self.device.clone(),
            system_locale: self.system_locale.clone(),
            browser_user_agent: self.browser_user_agent.clone(),
            browser_version: self.browser_version.clone(),
            os_version: self.os_version.clone(),
            referrer: self.referrer.clone(),
            referring_domain: self.referring_domain.clone(),
            referrer_current: self.referrer_current.clone(),
            referring_domain_current: self.referring_domain_current.clone(),
            release_channel: self.release_channel.clone(),
            client_build_number: self.client_build_number,
            client_event_source: match &self.client_event_source {
                Some(s) => Some(s.clone()),
                None => None,
            },
        }
    }
}

impl Default for SuperProperties {
    /// The properties of a stock desktop client.
    fn default() -> (d: SuperProperties)
        ensures
            d.os@ == "Linux"@,
            d.browser@ == "Chrome"@,
            d.device@ == ""@,
            d.system_locale@ == "en-US"@,
            d.browser_version@ == "120.0.0.0"@,
            d.os_version@ == ""@,
            d.referrer@ == ""@,
            d.referring_domain@ == ""@,
            d.referrer_current@ == ""@,
            d.referring_domain_current@ == ""@,
            d.release_channel@ == "stable"@,
            d.client_build_number == DEFAULT_BUILD_NUMBER,
            d.client_event_source is None,
    {
        let d = SuperProperties {
            os: "Linux".to_owned(),
            browser: "Chrome".to_owned(),
            device: String::new(),
            system_locale: "en-US".to_owned(),
            browser_user_agent:
                "Mozilla/5.0 (X11; Linux x86_64) AppleWebKit/537.36 (KHTML, like Gecko) Chrome/120.0.0.0 Safari/537.36".to_owned(),
            browser_version: "120.0.0.0".to_owned(),
            os_version: String::new(),
            referrer: String::new(),
            referring_domain: String::new(),
            referrer_current: String::new(),
            referring_domain_current: String::new(),
            release_channel: "stable".to_owned(),
            client_build_number: DEFAULT_BUILD_NUMBER,
            client_event_source: None,
        };
        proof {
            reveal_strlit("");
            assert(d.device@ =~= ""@);
            assert(d.os_version@ =~= ""@);
            assert(d.referrer@ =~= ""@);
            assert(d.referring_domain@ =~= ""@);
            assert(d.referrer_current@ =~= ""@);
            assert(d.referring_domain_current@ =~= ""@);
        }
        d
    }
}

/// The standard-alphabet, padded base64 encoding of a text's UTF-8
/// bytes.
pub uninterp spec fn base64_of(s: Seq<char>) -> Seq<char>;

/// Relies on the `STANDARD` engine's `Engine::encode` of the base64
/// crate: standard alphabet with padding; the result is a function of the
/// input bytes alone, and empty input encodes to the empty string.
#[verifier::external_body]
fn encode_base64(s: &str) -> (r: String)
    ensures
        r@ == base64_of(s@),
        s@.len() == 0 ==> r@.len() == 0,
{
    base64::engine::general_purpose::STANDARD.encode(s.as_bytes())
}

/// The client identity presented to the platform: the properties and the
/// cached header value derived from them.
#[derive(Debug)]
pub struct ClientIdentity {
    properties: SuperProperties,
    header_cache: String,
}

impl ClientIdentity {
    /// The properties currently presented.
    pub closed spec fn view_props(self) -> SuperProperties {
        self.properties
    }

    /// The cached header is the base64 of the canonical JSON of the
    /// properties.
    pub open spec fn wf(self) -> bool {
        self.view_header() == base64_of(spec_props_json(self.view_props()))
    }

    /// The header text currently cached.
    pub closed spec fn view_header(self) -> Seq<char> {
        self.header_cache@
    }

    /// A stock identity with the header cache filled.
    pub fn new() -> (c: ClientIdentity)
        ensures
            c.wf(),
            c.view_props().client_build_number == DEFAULT_BUILD_NUMBER,
            c.view_props().os@ == "Linux"@,
            c.view_props().browser@ == "Chrome"@,
            c.view_props().release_channel@ == "stable"@,
    {
        let props = SuperProperties::default();
        let json = props.to_json();
        let header = encode_base64(json.as_str());
        ClientIdentity { properties: props, header_cache: header }
    }

    /// Replaces the client build number and refreshes the cached header;
    /// a number equal to the current one changes nothing.
    pub fn update_build_number(&mut self, build_number: u32)
        requires
            old(self).wf(),
        ensures
            final(self).wf(),
            final(self).view_props() == (SuperProperties {
                client_build_number: build_number,
                ..old(self).view_props()
            }),
    {
        if self.properties.client_build_number == build_number {
            proof {
                assert(self.properties == (SuperProperties {
                    client_build_number: build_number,
                    ..self.properties
                }));
            }
            return ;
        }
        self.properties.client_build_number = build_number;
        let json = self.properties.to_json();
        self.header_cache = encode_base64(json.as_str());
    }

    /// A copy of the current properties.
    pub fn get_props(&self) -> (r: SuperProperties)
        ensures
            r == self.view_props(),
    {
        self.properties.clone_props()
    }

    /// The base64-encoded JSON of the properties, for request headers.
    pub fn get_header_value(&self) -> (r: String)
        requires
            self.wf(),
        ensures
            r@ == base64_of(spec_props_json(self.view_props())),
    {
        self.header_cache.clone()
    }
}

} // verus!
