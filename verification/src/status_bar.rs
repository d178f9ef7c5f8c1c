//! The stateless assembler of the aggregate line.

use vstd::prelude::*;
use crate::feature::Feature;
use crate::text::spec_join;
use crate::text::join_strings;

verus! {

/// Joins the rendered feature texts, in feature order, with a configured
/// separator.  Writing the line to the output sink happens outside the
/// library.
#[derive(Debug)]
pub struct StatusBar {
    pub separator: String,
}

impl StatusBar {
    /// A status bar over the given separator.
    pub fn new(separator: String) -> (r: StatusBar)
        ensures
            r.separator == separator,
    {
        StatusBar { separator }
    }

    /// The aggregate line: every feature's render, in order, joined with
    /// the separator.
    pub open spec fn spec_line(&self, features: Seq<Feature>) -> Seq<char> {
        spec_join(
            features.map_values(|f: Feature| f.updater.data.spec_render()),
            self.separator@,
        )
    }

    /// Assembles the aggregate line from every feature, in order.
    pub fn render(&self, features: &Vec<Feature>) -> (r: String)
        ensures
            r@ == self.spec_line(features@),
    {
        let mut rendered: Vec<String> = Vec::new();
        let mut i: usize = 0;
        while i < features.len()
            invariant
                i <= features@.len(),
                rendered@.len() == i,
                forall|k: int|
                    0 <= k < i ==> (#[trigger] rendered@[k])@
                        == features@[k].updater.data.spec_render(),
            decreases features@.len() - i,
        {
            let entry = features[i].render();
            rendered.push(entry);
            i += 1;
        }
        proof {
            let dv = rendered.deep_view();
            let target = features@.map_values(|f: Feature| f.updater.data.spec_render());
            assert(dv.len() == target.len());
            assert forall|k: int| 0 <= k < dv.len() implies dv[k] == target[k] by {
                assert(dv[k] == rendered@[k]@);
                assert(rendered@[k]@ == features@[k].updater.data.spec_render());
            }
            assert(dv =~= target);
        }
        join_strings(&rendered, self.separator.as_str())
    }
}

} // verus!
