//! The cpu-load feature: the one-, five- and fifteen-minute load
//! averages, rendered through a configured template.
//!
//! Load averages are held in hundredths, so `152` renders as `1.52`; the
//! operating-system read that produces them lives outside the library.

use vstd::prelude::*;
use vstd::string::StringExecFns;
use crate::error::Error;
use crate::feature::Data;
use crate::feature::Feature;
use crate::feature::Notifier;
use crate::feature::Updater;
use crate::text::spec_decimal;
use crate::text::spec_pad2;
use crate::text::spec_replace;
use crate::text::decimal_string;
use crate::text::padded2_string;
use crate::text::str_replace;

verus! {

/// Configuration of the cpu-load feature: the render template and the
/// refresh interval in seconds.
#[derive(Debug)]
pub struct ConfigEntry {
    pub template: String,
    pub update_interval: u64,
}

/// A load average in hundredths as `units.hundredths`, the fraction always
/// two digits.
pub open spec fn spec_load_text(c: u64) -> Seq<char> {
    spec_decimal((c as nat) / 100) + "."@ + spec_pad2((c as nat) % 100)
}

/// Renders a load average held in hundredths.
fn load_text(c: u64) -> (r: String)
    ensures
        r@ == spec_load_text(c),
{
    let mut r = decimal_string(c / 100);
    r.append(".");
    let frac = padded2_string(c % 100);
    r.append(frac.as_str());
    proof {
        assert(r@ =~= spec_load_text(c));
    }
    r
}

/// The load averages in hundredths, and the render template.
#[derive(Debug)]
pub struct CpuLoadData {
    pub one: u64,
    pub five: u64,
    pub fifteen: u64,
    pub template: String,
}

impl CpuLoadData {
    /// The template with `{CL1}`, `{CL5}` and `{CL15}` substituted in that
    /// order; unknown placeholders pass through unchanged.
    pub open spec fn spec_render(&self) -> Seq<char> {
        spec_replace(
            spec_replace(
                spec_replace(self.template@, "{CL1}"@, spec_load_text(self.one)),
                "{CL5}"@,
                spec_load_text(self.five),
            ),
            "{CL15}"@,
            spec_load_text(self.fifteen),
        )
    }

    /// Fresh data with all load averages at zero.
    pub fn new(template: String) -> (r: CpuLoadData)
        ensures
            r.one == 0,
            r.five == 0,
            r.fifteen == 0,
            r.template == template,
    {
        CpuLoadData { one: 0, five: 0, fifteen: 0, template }
    }

    /// Renders the load averages through the template.
    pub fn render(&self) -> (r: String)
        ensures
            r@ == self.spec_render(),
    {
        proof {
            reveal_strlit("{CL1}");
            reveal_strlit("{CL5}");
            reveal_strlit("{CL15}");
        }
        let one = load_text(self.one);
        let five = load_text(self.five);
        let fifteen = load_text(self.fifteen);
        let step1 = str_replace(self.template.as_str(), "{CL1}", one.as_str());
        let step2 = str_replace(step1.as_str(), "{CL5}", five.as_str());
        str_replace(step2.as_str(), "{CL15}", fifteen.as_str())
    }
}

/// Builds the cpu-load feature: an interval notifier and an updater over
/// zeroed load averages, under the id `cpu_load` followed by the ordinal.
pub fn create(id: u64, settings: &ConfigEntry) -> (r: Result<Feature, Error>)
    ensures
        r matches Ok(f) && f.id@ == "cpu_load"@ + spec_decimal(id as nat) && f.name@ == "cpu_load"@
            && f.notifier == Notifier::Interval(settings.update_interval) && (
        f.updater.data matches Data::CpuLoad(d) && d.one == 0 && d.five == 0 && d.fifteen == 0
            && d.template@ == settings.template@),
{
    let mut fid = String::from_str("cpu_load");
    let ordinal = decimal_string(id);
    fid.append(ordinal.as_str());
    let data = CpuLoadData::new(settings.template.clone());
    Ok(
        Feature::compose(
            fid,
            String::from_str("cpu_load"),
            Notifier::Interval(settings.update_interval),
            Updater::new(Data::CpuLoad(data)),
        ),
    )
}

} // verus!
