//! The battery feature's data and its rendering.
//!
//! Capacity is held in permille of a full charge, the remaining-time
//! estimate in seconds; the operating-system read that produces them lives
//! outside the library.

use vstd::prelude::*;
use vstd::string::StringExecFns;
use crate::text::lemma_chars_le_refl;
use crate::text::lemma_chars_le_total;
use crate::text::spec_chars_le;
use crate::text::spec_decimal;
use crate::text::spec_join;
use crate::text::spec_pad2;
use crate::text::decimal_string;
use crate::text::join_strings;
use crate::text::padded2_string;
use crate::text::str_le;

verus! {

/// Render settings of the battery feature.
#[derive(Debug)]
pub struct BatterySettings {
    pub charging: String,
    pub debug: bool,
    pub discharging: String,
    pub enable_notifier: bool,
    pub no_battery: String,
    pub notifier_critical: u64,
    pub notifier_levels: Vec<u64>,
    pub separator: String,
}

/// The state of one battery: capacity in permille of a full charge, and
/// the estimated remaining time in seconds, when one is known.
#[derive(Clone, Copy, Debug)]
pub struct BatteryInfo {
    pub capacity: u16,
    pub estimation: Option<u64>,
}

/// The capacity as a percentage, rounded to the nearest percent, with a
/// `%` sign.
pub open spec fn spec_capacity_text(capacity: u16) -> Seq<char> {
    spec_decimal(((capacity as nat) + 5) / 10) + "%"@
}

/// Seconds as `hours:minutes`, each zero-padded to two digits.
pub open spec fn spec_time_text(secs: u64) -> Seq<char> {
    spec_pad2((secs as nat) / 3600) + ":"@ + spec_pad2(((secs as nat) % 3600) / 60)
}

impl BatteryInfo {
    /// The rendered text: the capacity, then the estimate in parentheses
    /// when one is known.
    pub open spec fn spec_render(self) -> Seq<char> {
        match self.estimation {
            Some(secs) => spec_capacity_text(self.capacity) + " ("@ + spec_time_text(secs)
                + ")"@,
            None => spec_capacity_text(self.capacity),
        }
    }

    /// Renders this battery's state.
    pub fn render(&self) -> (r: String)
        ensures
            r@ == self.spec_render(),
    {
        let c: u64 = ((self.capacity as u64) + 5) / 10;
        let mut r = decimal_string(c);
        r.append("%");
        match self.estimation {
            Some(secs) => {
                r.append(" (");
                let hours = padded2_string(secs / 3600);
                r.append(hours.as_str());
                r.append(":");
                let minutes = padded2_string((secs % 3600) / 60);
                r.append(minutes.as_str());
                r.append(")");
            },
            None => {},
        }
        proof {
            assert(r@ =~= self.spec_render());
        }
        r
    }
}

/// One entry per present battery, keyed by the battery's name, in
/// strictly ascending key order.
pub open spec fn spec_keys_sorted(s: Seq<(String, BatteryInfo)>) -> bool {
    forall|i: int|
        0 <= i < s.len() - 1 ==> spec_chars_le(#[trigger] s[i].0@, s[i + 1].0@) && s[i].0@ != s[i
            + 1].0@
}

/// The entries with `(key, info)` bound: an entry with an equal key is
/// replaced, otherwise the pair is placed before the first key it is not
/// above.
pub open spec fn spec_insert(
    s: Seq<(String, BatteryInfo)>,
    key: String,
    info: BatteryInfo,
) -> Seq<(String, BatteryInfo)>
    decreases s.len(),
{
    if s.len() == 0 {
        seq![(key, info)]
    } else if key@ == s[0].0@ {
        seq![(key, info)] + s.skip(1)
    } else if spec_chars_le(key@, s[0].0@) {
        seq![(key, info)] + s
    } else {
        seq![s[0]] + spec_insert(s.skip(1), key, info)
    }
}

/// Skipping entries whose keys are strictly below the bound key leaves the
/// insertion to the remainder.
proof fn lemma_insert_skip(s: Seq<(String, BatteryInfo)>, key: String, info: BatteryInfo, i: int)
    requires
        0 <= i <= s.len(),
        forall|k: int| 0 <= k < i ==> !spec_chars_le(key@, #[trigger] s[k].0@),
    ensures
        spec_insert(s, key, info) == s.take(i) + spec_insert(s.skip(i), key, info),
    decreases i,
{
    if i == 0 {
        assert(s.take(0) =~= Seq::<(String, BatteryInfo)>::empty());
        assert(s.skip(0) =~= s);
        assert(s.take(0) + spec_insert(s, key, info) =~= spec_insert(s, key, info));
    } else {
        lemma_chars_le_refl(key@);
        assert(key@ != s[0].0@);
        assert(spec_insert(s, key, info) == seq![s[0]] + spec_insert(s.skip(1), key, info));
        assert(forall|k: int|
            0 <= k < i - 1 ==> !spec_chars_le(key@, #[trigger] s.skip(1)[k].0@));
        lemma_insert_skip(s.skip(1), key, info, i - 1);
        assert(s.skip(1).take(i - 1) =~= s.take(i).skip(1));
        assert(s.skip(1).skip(i - 1) =~= s.skip(i));
        assert(seq![s[0]] + (s.take(i).skip(1) + spec_insert(s.skip(i), key, info)) =~= s.take(i)
            + spec_insert(s.skip(i), key, info));
    }
}

/// The battery feature's data: whether external power is connected, the
/// present batteries, and the render settings.
#[derive(Debug)]
pub struct BatteryData {
    pub ac_online: bool,
    pub batteries: Vec<(String, BatteryInfo)>,
    pub settings: BatterySettings,
}

impl BatteryData {
    /// The battery entries are in strictly ascending key order.
    pub open spec fn wf(&self) -> bool {
        spec_keys_sorted(self.batteries@)
    }

    /// The rendered text: the placeholder when no battery is present,
    /// otherwise the charge direction followed by each battery's text,
    /// joined with the configured separator.
    pub open spec fn spec_render(&self) -> Seq<char> {
        if self.batteries@.len() == 0 {
            self.settings.no_battery@
        } else {
            (if self.ac_online {
                self.settings.charging@
            } else {
                self.settings.discharging@
            }) + " "@ + spec_join(
                self.batteries@.map_values(|p: (String, BatteryInfo)| p.1.spec_render()),
                self.settings.separator@,
            )
        }
    }

    /// An empty battery table.
    pub fn new(ac_online: bool, settings: BatterySettings) -> (r: BatteryData)
        ensures
            r.ac_online == ac_online,
            r.settings == settings,
            r.batteries@.len() == 0,
            r.wf(),
    {
        BatteryData { ac_online, batteries: Vec::new(), settings }
    }

    /// Renders the battery state.
    pub fn render(&self) -> (r: String)
        ensures
            r@ == self.spec_render(),
    {
        if self.batteries.len() == 0 {
            return self.settings.no_battery.clone();
        }
        let mut rendered: Vec<String> = Vec::new();
        let mut i: usize = 0;
        while i < self.batteries.len()
            invariant
                i <= self.batteries@.len(),
                rendered@.len() == i,
                forall|k: int|
                    0 <= k < i ==> (#[trigger] rendered@[k])@ == self.batteries@[k].1.spec_render(),
            decreases self.batteries@.len() - i,
        {
            let entry = self.batteries[i].1.render();
            rendered.push(entry);
            i += 1;
        }
        proof {
            let dv = rendered.deep_view();
            let target = self.batteries@.map_values(|p: (String, BatteryInfo)| p.1.spec_render());
            assert(dv.len() == target.len());
            assert forall|k: int| 0 <= k < dv.len() implies dv[k] == target[k] by {
                assert(dv[k] == rendered@[k]@);
                assert(rendered@[k]@ == self.batteries@[k].1.spec_render());
            }
            assert(dv =~= target);
        }
        let joined = join_strings(&rendered, self.settings.separator.as_str());
        let mut r = if self.ac_online {
            self.settings.charging.clone()
        } else {
            self.settings.discharging.clone()
        };
        r.append(" ");
        r.append(joined.as_str());
        proof {
            assert(r@ =~= self.spec_render());
        }
        r
    }

    /// Binds `key` to `info`, replacing an entry with an equal key and
    /// keeping the entries in key order.
    pub fn set(&mut self, key: String, info: BatteryInfo)
        requires
            old(self).wf(),
        ensures
            final(self).wf(),
            final(self).ac_online == old(self).ac_online,
            final(self).settings == old(self).settings,
            final(self).batteries@ == spec_insert(old(self).batteries@, key, info),
    {
        let ghost s0 = self.batteries@;
        let n = self.batteries.len();
        let mut out: Vec<(String, BatteryInfo)> = Vec::new();
        let mut i: usize = 0;
        while i < n && !str_le(key.as_str(), self.batteries[i].0.as_str())
            invariant
                n == s0.len(),
                i <= n,
                self.batteries@ == s0,
                out@ == s0.take(i as int),
                forall|k: int| 0 <= k < i ==> !spec_chars_le(key@, #[trigger] s0[k].0@),
            decreases n - i,
        {
            out.push((self.batteries[i].0.clone(), self.batteries[i].1));
            proof {
                assert(out@ =~= s0.take(i + 1));
            }
            i += 1;
        }
        proof {
            lemma_insert_skip(s0, key, info, i as int);
        }
        let mut j: usize = i;
        if i < n && self.batteries[i].0 == key {
            // an entry with an equal key is replaced
            out.push((key, info));
            proof {
                assert(s0.skip(i as int)[0] == s0[i as int]);
                assert(spec_insert(s0.skip(i as int), key, info) == seq![(key, info)] + s0.skip(
                    i as int,
                ).skip(1));
                assert(s0.skip(i as int).skip(1) =~= s0.skip(i + 1));
            }
            j = i + 1;
        } else {
            out.push((key, info));
            proof {
                if i < n {
                    assert(s0.skip(i as int)[0] == s0[i as int]);
                    assert(key@ != s0[i as int].0@);
                    assert(spec_chars_le(key@, s0[i as int].0@));
                    assert(spec_insert(s0.skip(i as int), key, info) == seq![(key, info)]
                        + s0.skip(i as int));
                } else {
                    assert(s0.skip(i as int).len() == 0);
                }
            }
        }
        let ghost mid = out@;
        let ghost target = spec_insert(s0, key, info);
        proof {
            assert(target =~= mid + s0.skip(j as int));
        }
        while j < n
            invariant
                n == s0.len(),
                j <= n,
                self.batteries@ == s0,
                target == spec_insert(s0, key, info),
                target =~= out@ + s0.skip(j as int),
            decreases n - j,
        {
            out.push((self.batteries[j].0.clone(), self.batteries[j].1));
            proof {
                assert(s0.skip(j as int)[0] == s0[j as int]);
                assert(s0.skip(j as int).skip(1) =~= s0.skip(j + 1));
                assert(target =~= out@ + s0.skip(j + 1));
            }
            j += 1;
        }
        proof {
            assert(s0.skip(n as int).len() == 0);
            assert(out@ =~= target);
            lemma_insert_sorted(s0, key, info);
        }
        self.batteries = out;
    }
}

/// Insertion keeps the entries in strictly ascending key order.
proof fn lemma_insert_sorted(s: Seq<(String, BatteryInfo)>, key: String, info: BatteryInfo)
    requires
        spec_keys_sorted(s),
    ensures
        spec_keys_sorted(spec_insert(s, key, info)),
    decreases s.len(),
{
    if s.len() == 0 {
    } else if key@ == s[0].0@ {
        let r = seq![(key, info)] + s.skip(1);
        assert forall|i: int| 0 <= i < r.len() - 1 implies spec_chars_le(
            #[trigger] r[i].0@,
            r[i + 1].0@,
        ) && r[i].0@ != r[i + 1].0@ by {
            assert(s[i].0@ == r[i].0@ || i == 0);
            assert(r[i + 1] == s[i + 1]);
        }
    } else if spec_chars_le(key@, s[0].0@) {
        let r = seq![(key, info)] + s;
        assert forall|i: int| 0 <= i < r.len() - 1 implies spec_chars_le(
            #[trigger] r[i].0@,
            r[i + 1].0@,
        ) && r[i].0@ != r[i + 1].0@ by {
            if i > 0 {
                assert(r[i] == s[i - 1]);
                assert(r[i + 1] == s[i]);
            }
        }
    } else {
        lemma_chars_le_total(key@, s[0].0@);
        lemma_chars_le_refl(key@);
        assert(spec_chars_le(s[0].0@, key@));
        assert(forall|k: int|
            0 <= k < s.skip(1).len() - 1 ==> spec_chars_le(#[trigger] s.skip(1)[k].0@, s.skip(
                1,
            )[k + 1].0@) && s.skip(1)[k].0@ != s.skip(1)[k + 1].0@);
        lemma_insert_sorted(s.skip(1), key, info);
        let t = spec_insert(s.skip(1), key, info);
        let r = seq![s[0]] + t;
        lemma_insert_head(s.skip(1), key, info, s[0].0@);
        assert forall|i: int| 0 <= i < r.len() - 1 implies spec_chars_le(
            #[trigger] r[i].0@,
            r[i + 1].0@,
        ) && r[i].0@ != r[i + 1].0@ by {
            if i == 0 {
                assert(r[1] == t[0]);
            } else {
                assert(r[i] == t[i - 1]);
                assert(r[i + 1] == t[i]);
            }
        }
    }
}

/// The head of an insertion into a list whose keys all sit strictly above
/// a lower bound stays strictly above that bound.
proof fn lemma_insert_head(
    s: Seq<(String, BatteryInfo)>,
    key: String,
    info: BatteryInfo,
    low: Seq<char>,
)
    requires
        spec_chars_le(low, key@),
        low != key@,
        s.len() > 0 ==> spec_chars_le(low, s[0].0@) && low != s[0].0@,
    ensures
        spec_chars_le(low, spec_insert(s, key, info)[0].0@),
        low != spec_insert(s, key, info)[0].0@,
{
    if s.len() == 0 {
    } else if key@ == s[0].0@ {
    } else if spec_chars_le(key@, s[0].0@) {
    } else {
    }
}

} // verus!
