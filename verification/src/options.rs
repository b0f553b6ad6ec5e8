//! Sparse tuning knobs forwarded to the engine.
//!
//! Every knob is independently optional: a present value becomes one isolated
//! engine call, an absent value leaves the engine's default untouched. No two
//! knobs interact, so only the set of calls matters; they are emitted in one
//! fixed order.

use vstd::prelude::*;

use crate::session::MaxPre;

verus! {

/// The tuning knobs a session accepts, each optional.
#[derive(Clone, Copy)]
pub struct Options {
    pub bve_gate_extraction: Option<bool>,
    pub label_matching: Option<bool>,
    pub skip_technique: Option<i32>,
    pub bve_sort_max_first: Option<bool>,
    pub bve_local_grow_limit: Option<i32>,
    pub bve_global_grow_limit: Option<i32>,
    pub max_bbtms_vars: Option<i32>,
    pub harden_in_model_search: Option<bool>,
    pub model_search_iter_limits: Option<i32>,
}

impl Default for Options {
    /// The empty option set: every knob absent, every engine default kept.
    fn default() -> (r: Options)
        ensures
            r.bve_gate_extraction is None,
            r.label_matching is None,
            r.skip_technique is None,
            r.bve_sort_max_first is None,
            r.bve_local_grow_limit is None,
            r.bve_global_grow_limit is None,
            r.max_bbtms_vars is None,
            r.harden_in_model_search is None,
            r.model_search_iter_limits is None,
    {
        Options {
            bve_gate_extraction: None,
            label_matching: None,
            skip_technique: None,
            bve_sort_max_first: None,
            bve_local_grow_limit: None,
            bve_global_grow_limit: None,
            max_bbtms_vars: None,
            harden_in_model_search: None,
            model_search_iter_limits: None,
        }
    }
}

/// One engine call setting one tuning knob.
#[derive(Clone, Copy, PartialEq, Eq, Structural, Debug)]
pub enum OptionCmd {
    BveGateExtraction(bool),
    LabelMatching(bool),
    SkipTechnique(i32),
    BveSortMaxFirst(bool),
    BveLocalGrowLimit(i32),
    BveGlobalGrowLimit(i32),
    MaxBbtmsVars(i32),
    HardenInModelSearch(bool),
    ModelSearchIterLimit(i32),
}

/// The engine calls an option set gives rise to: one per present knob, none
/// per absent knob.
pub open spec fn option_cmds(o: Options) -> Seq<OptionCmd> {
    (if o.bve_gate_extraction is Some {
        seq![OptionCmd::BveGateExtraction(o.bve_gate_extraction->0)]
    } else {
        Seq::empty()
    }) + (if o.label_matching is Some {
        seq![OptionCmd::LabelMatching(o.label_matching->0)]
    } else {
        Seq::empty()
    }) + (if o.skip_technique is Some {
        seq![OptionCmd::SkipTechnique(o.skip_technique->0)]
    } else {
        Seq::empty()
    }) + (if o.bve_sort_max_first is Some {
        seq![OptionCmd::BveSortMaxFirst(o.bve_sort_max_first->0)]
    } else {
        Seq::empty()
    }) + (if o.bve_local_grow_limit is Some {
        seq![OptionCmd::BveLocalGrowLimit(o.bve_local_grow_limit->0)]
    } else {
        Seq::empty()
    }) + (if o.bve_global_grow_limit is Some {
        seq![OptionCmd::BveGlobalGrowLimit(o.bve_global_grow_limit->0)]
    } else {
        Seq::empty()
    }) + (if o.max_bbtms_vars is Some {
        seq![OptionCmd::MaxBbtmsVars(o.max_bbtms_vars->0)]
    } else {
        Seq::empty()
    }) + (if o.harden_in_model_search is Some {
        seq![OptionCmd::HardenInModelSearch(o.harden_in_model_search->0)]
    } else {
        Seq::empty()
    }) + (if o.model_search_iter_limits is Some {
        seq![OptionCmd::ModelSearchIterLimit(o.model_search_iter_limits->0)]
    } else {
        Seq::empty()
    })
}

/// The engine calls of one knob: one for a present value, none for an absent
/// one.
pub open spec fn knob_cmds(cmd: Option<OptionCmd>) -> Seq<OptionCmd> {
    if cmd is Some {
        seq![cmd->0]
    } else {
        Seq::empty()
    }
}

/// Appends one knob's calls.
fn push_knob(r: &mut Vec<OptionCmd>, cmd: Option<OptionCmd>)
    ensures
        final(r)@ == old(r)@ + knob_cmds(cmd),
{
    match cmd {
        Some(c) => {
            r.push(c);
            proof {
                assert(r@ =~= old(r)@ + knob_cmds(cmd));
            }
        },
        None => {
            proof {
                assert(r@ =~= old(r)@ + knob_cmds(cmd));
            }
        },
    }
}

impl MaxPre {
    /// Turns an option set into the engine calls that apply it: exactly one
    /// call per present knob, in the fixed emission order, and none for an
    /// absent knob.
    #[verifier::rlimit(100)]
    pub fn set_options(&self, opts: &Options) -> (r: Vec<OptionCmd>)
        ensures
            r@ == option_cmds(*opts),
    {
        let mut r: Vec<OptionCmd> = Vec::new();
        push_knob(&mut r, match opts.bve_gate_extraction {
            Some(v) => Some(OptionCmd::BveGateExtraction(v)),
            None => None,
        });
        push_knob(&mut r, match opts.label_matching {
            Some(v) => Some(OptionCmd::LabelMatching(v)),
            None => None,
        });
        push_knob(&mut r, match opts.skip_technique {
            Some(v) => Some(OptionCmd::SkipTechnique(v)),
            None => None,
        });
        push_knob(&mut r, match opts.bve_sort_max_first {
            Some(v) => Some(OptionCmd::BveSortMaxFirst(v)),
            None => None,
        });
        push_knob(&mut r, match opts.bve_local_grow_limit {
            Some(v) => Some(OptionCmd::BveLocalGrowLimit(v)),
            None => None,
        });
        push_knob(&mut r, match opts.bve_global_grow_limit {
            Some(v) => Some(OptionCmd::BveGlobalGrowLimit(v)),
            None => None,
        });
        push_knob(&mut r, match opts.max_bbtms_vars {
            Some(v) => Some(OptionCmd::MaxBbtmsVars(v)),
            None => None,
        });
        push_knob(&mut r, match opts.harden_in_model_search {
            Some(v) => Some(OptionCmd::HardenInModelSearch(v)),
            None => None,
        });
        push_knob(&mut r, match opts.model_search_iter_limits {
            Some(v) => Some(OptionCmd::ModelSearchIterLimit(v)),
            None => None,
        });
        proof {
            broadcast use vstd::seq_lib::group_seq_properties;

            assert(r@ =~= option_cmds(*opts));
        }
        r
    }
}

} // verus!
