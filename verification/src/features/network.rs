//! The network feature: addresses and wireless network name, rendered
//! through a configured template with a placeholder value for whatever is
//! absent.

use vstd::prelude::*;
use crate::conf::Conf;
use crate::conf::ConfValue;
use crate::conf::lemma_lookup_other;
use crate::conf::spec_lookup;
use crate::error::Error;
use crate::error::ErrorKind;
use crate::text::spec_contains;
use crate::text::spec_replace;
use crate::text::str_contains;
use crate::text::str_replace;

verus! {

/// Render settings of the network feature.
#[derive(Clone, Debug)]
pub struct RenderConfig {
    pub no_value: String,
    pub template: String,
}

/// Which of the network values the updater queries at all; a value whose
/// placeholder does not occur in the template is never fetched.
#[derive(Clone, Copy, Debug, PartialEq, Eq, Structural)]
pub struct UpdateConfig {
    pub show_essid: bool,
    pub show_ipv4: bool,
    pub show_ipv6: bool,
}

/// The network feature's data: the last fetched values and the render
/// settings.
#[derive(Debug)]
pub struct NetworkData {
    pub ipv4: Option<String>,
    pub ipv6: Option<String>,
    pub essid: Option<String>,
    pub render: RenderConfig,
}

/// Configuration of the network feature.
#[derive(Clone, Debug)]
pub struct ConfigEntry {
    pub render: RenderConfig,
    pub update: UpdateConfig,
}

/// Binds the key to whether the placeholder occurs in the template.
fn set_update_config(conf: &mut Conf, template: &str, placeholder: &str, key: &str) -> (r: Result<
    (),
    Error,
>)
    ensures
        r is Ok,
        final(conf).entries@.len() == old(conf).entries@.len() + 1,
        final(conf).entries@[0].0@ == key@,
        final(conf).entries@[0].1 == ConfValue::Flag(spec_contains(template@, placeholder@)),
        final(conf).entries@.skip(1) == old(conf).entries@,
{
    conf.set(key, ConfValue::Flag(str_contains(template, placeholder)));
    Ok(())
}

impl ConfigEntry {
    /// Binds the network feature's configuration keys that are still
    /// unbound to their default values, and touches no other key.
    pub fn set_default(conf: &mut Conf) -> (r: Result<(), Error>)
        ensures
            r is Ok,
            spec_lookup(old(conf).entries@, "network.no_value"@) matches Some(v) ==> spec_lookup(
                final(conf).entries@,
                "network.no_value"@,
            ) == Some(v),
            spec_lookup(old(conf).entries@, "network.no_value"@) is None ==> (spec_lookup(
                final(conf).entries@,
                "network.no_value"@,
            ) matches Some(ConfValue::Text(s)) && s@ == "NA"@),
            spec_lookup(old(conf).entries@, "network.template"@) matches Some(v) ==> spec_lookup(
                final(conf).entries@,
                "network.template"@,
            ) == Some(v),
            spec_lookup(old(conf).entries@, "network.template"@) is None ==> (spec_lookup(
                final(conf).entries@,
                "network.template"@,
            ) matches Some(ConfValue::Text(s)) && s@ == "{IPv4} \u{b7} {IPv6} \u{b7} {ESSID}"@),
            forall|k: Seq<char>|
                k != "network.no_value"@ && k != "network.template"@ ==> #[trigger] spec_lookup(
                    final(conf).entries@,
                    k,
                ) == spec_lookup(old(conf).entries@, k),
    {
        let ghost e0 = conf.entries@;
        proof {
            reveal_strlit("network.no_value");
            reveal_strlit("network.template");
            assert("network.no_value"@[8] == 'n');
            assert("network.template"@[8] == 't');
            assert("network.no_value"@ != "network.template"@);
        }
        conf.set_default_str("network.no_value", "NA");
        let ghost e1 = conf.entries@;
        conf.set_default_str("network.template", "{IPv4} \u{b7} {IPv6} \u{b7} {ESSID}");
        proof {
            if spec_lookup(e0, "network.no_value"@) is None {
                assert(e1[0].0@ == "network.no_value"@);
                assert(spec_lookup(e1, "network.no_value"@) == Some(e1[0].1));
            }
            if spec_lookup(e1, "network.template"@) is None {
                assert(conf.entries@[0].0@ == "network.template"@);
                assert(spec_lookup(conf.entries@, "network.template"@) == Some(
                    conf.entries@[0].1,
                ));
            }
            if e1.len() == e0.len() + 1 {
                assert forall|k: Seq<char>| k != "network.no_value"@ implies spec_lookup(e1, k)
                    == spec_lookup(e0, k) by {
                    lemma_lookup_other(e1, e0, "network.no_value"@, k);
                }
            }
            if conf.entries@.len() == e1.len() + 1 {
                assert forall|k: Seq<char>| k != "network.template"@ implies spec_lookup(
                    conf.entries@,
                    k,
                ) == spec_lookup(e1, k) by {
                    lemma_lookup_other(conf.entries@, e1, "network.template"@, k);
                }
            }
        }
        Ok(())
    }

    /// Reads the configured template and binds, for each placeholder, the
    /// switch saying whether that placeholder occurs in it; fails with the
    /// configuration error when no template text is bound.
    pub fn set_values(conf: &mut Conf) -> (r: Result<(), Error>)
        ensures
            spec_lookup(old(conf).entries@, "network.template"@) matches Some(
                ConfValue::Text(t),
            ) ==> (r is Ok && spec_lookup(final(conf).entries@, "network.update.show_essid"@)
                == Some(ConfValue::Flag(spec_contains(t@, "{ESSID}"@))) && spec_lookup(
                final(conf).entries@,
                "network.update.show_ipv4"@,
            ) == Some(ConfValue::Flag(spec_contains(t@, "{IPv4}"@))) && spec_lookup(
                final(conf).entries@,
                "network.update.show_ipv6"@,
            ) == Some(ConfValue::Flag(spec_contains(t@, "{IPv6}"@)))),
            !(spec_lookup(old(conf).entries@, "network.template"@) matches Some(
                ConfValue::Text(t),
            )) ==> (r matches Err(e) && e.kind == ErrorKind::Configuration && final(conf).entries@
                == old(conf).entries@),
            forall|k: Seq<char>|
                k != "network.update.show_essid"@ && k != "network.update.show_ipv4"@ && k
                    != "network.update.show_ipv6"@ ==> #[trigger] spec_lookup(
                    final(conf).entries@,
                    k,
                ) == spec_lookup(old(conf).entries@, k),
    {
        proof {
            reveal_strlit("network.update.show_essid");
            reveal_strlit("network.update.show_ipv4");
            reveal_strlit("network.update.show_ipv6");
            assert("network.update.show_essid"@[20] == 'e');
            assert("network.update.show_ipv4"@[20] == 'i');
            assert("network.update.show_ipv6"@[20] == 'i');
            assert("network.update.show_ipv4"@[23] == '4');
            assert("network.update.show_ipv6"@[23] == '6');
            assert("network.update.show_essid"@ != "network.update.show_ipv4"@);
            assert("network.update.show_essid"@ != "network.update.show_ipv6"@);
            assert("network.update.show_ipv4"@ != "network.update.show_ipv6"@);
        }
        let template = match conf.get_str("network.template") {
            Ok(t) => t,
            Err(e) => {
                return Err(e);
            },
        };
        let ghost e0 = conf.entries@;
        let r1 = set_update_config(conf, template.as_str(), "{ESSID}", "network.update.show_essid");
        match r1 {
            Ok(()) => {},
            Err(e) => {
                return Err(e);
            },
        }
        let ghost e1 = conf.entries@;
        let r2 = set_update_config(conf, template.as_str(), "{IPv4}", "network.update.show_ipv4");
        match r2 {
            Ok(()) => {},
            Err(e) => {
                return Err(e);
            },
        }
        let ghost e2 = conf.entries@;
        let r3 = set_update_config(conf, template.as_str(), "{IPv6}", "network.update.show_ipv6");
        match r3 {
            Ok(()) => {},
            Err(e) => {
                return Err(e);
            },
        }
        proof {
            assert forall|k: Seq<char>| k != "network.update.show_essid"@ implies spec_lookup(
                e1,
                k,
            ) == spec_lookup(e0, k) by {
                lemma_lookup_other(e1, e0, "network.update.show_essid"@, k);
            }
            assert forall|k: Seq<char>| k != "network.update.show_ipv4"@ implies spec_lookup(
                e2,
                k,
            ) == spec_lookup(e1, k) by {
                lemma_lookup_other(e2, e1, "network.update.show_ipv4"@, k);
            }
            assert forall|k: Seq<char>| k != "network.update.show_ipv6"@ implies spec_lookup(
                conf.entries@,
                k,
            ) == spec_lookup(e2, k) by {
                lemma_lookup_other(conf.entries@, e2, "network.update.show_ipv6"@, k);
            }
            assert(spec_lookup(e1, "network.update.show_essid"@) is Some);
            assert(spec_lookup(e2, "network.update.show_ipv4"@) is Some);
            assert(spec_lookup(conf.entries@, "network.update.show_ipv6"@) is Some);
        }
        Ok(())
    }
}

/// The value's text, or the configured placeholder value when it is
/// absent.
pub open spec fn spec_value_text(v: Option<String>, no_value: Seq<char>) -> Seq<char> {
    match v {
        Some(s) => s@,
        None => no_value,
    }
}

impl NetworkData {
    /// The template with `{IPv4}`, `{IPv6}` and `{ESSID}` substituted in
    /// that order; unknown placeholders pass through unchanged.
    pub open spec fn spec_render(&self) -> Seq<char> {
        let nv = self.render.no_value@;
        spec_replace(
            spec_replace(
                spec_replace(self.render.template@, "{IPv4}"@, spec_value_text(self.ipv4, nv)),
                "{IPv6}"@,
                spec_value_text(self.ipv6, nv),
            ),
            "{ESSID}"@,
            spec_value_text(self.essid, nv),
        )
    }

    /// Renders the network state through the template.
    pub fn render(&self) -> (r: String)
        ensures
            r@ == self.spec_render(),
    {
        proof {
            reveal_strlit("{IPv4}");
            reveal_strlit("{IPv6}");
            reveal_strlit("{ESSID}");
        }
        let v4 = match &self.ipv4 {
            Some(s) => s.as_str(),
            None => self.render.no_value.as_str(),
        };
        let step1 = str_replace(self.render.template.as_str(), "{IPv4}", v4);
        let v6 = match &self.ipv6 {
            Some(s) => s.as_str(),
            None => self.render.no_value.as_str(),
        };
        let step2 = str_replace(step1.as_str(), "{IPv6}", v6);
        let essid = match &self.essid {
            Some(s) => s.as_str(),
            None => self.render.no_value.as_str(),
        };
        str_replace(step2.as_str(), "{ESSID}", essid)
    }
}

} // verus!
