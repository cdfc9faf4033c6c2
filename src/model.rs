//! What a constructed model instance caches from its foreign queries, and the
//! buffer-length contract of its evaluation call.
use vstd::prelude::*;

use vstd::utf8::{decode_utf8, valid_utf8};

use crate::error::{BridgeStanError, QueryError};

verus! {

/// Relies on `std::str::from_utf8`: it accepts a byte string exactly when it is
/// valid UTF-8, and then denotes the characters it encodes.
#[verifier::external_body]
fn utf8_text(b: &[u8]) -> (r: Option<String>)
    ensures
        r is Some <==> valid_utf8(b@),
        r is Some ==> r->Some_0@ == decode_utf8(b@),
{
    match std::str::from_utf8(b) {
        Ok(s) => Some(String::from(s)),
        Err(_) => None,
    }
}

/// Whether four counts, reported for the four combinations of the inclusion
/// flags, fit together. The count query counts the model parameters, plus the
/// transformed parameters when they are included, plus the generated
/// quantities when they are included; the three blocks are disjoint, so every
/// conforming model answers counts that fit. Counts that do not fit come from a
/// library that breaks the interface, and could not size buffers safely.
pub open spec fn counts_consistent(param: int, with_tp: int, with_gq: int, with_all: int) -> bool {
    param <= with_tp && param <= with_gq && with_all == with_tp + with_gq - param
}

/// The dimensionality of the parameter vector under each choice of the
/// inclusion flags, queried once when the instance is built.
#[derive(Clone, Copy, Debug, PartialEq, Eq, Structural)]
pub struct ParamCounts {
    param: usize,
    with_tp: usize,
    with_gq: usize,
    with_all: usize,
}

/// The count that the flags select from the four cached ones.
pub open spec fn selected(counts: ParamCounts, include_tp: bool, include_gq: bool) -> nat {
    if include_tp && include_gq {
        counts.all_spec()
    } else if include_tp {
        counts.with_tp_spec()
    } else if include_gq {
        counts.with_gq_spec()
    } else {
        counts.param_spec()
    }
}

impl ParamCounts {
    pub closed spec fn param_spec(self) -> nat {
        self.param as nat
    }

    pub closed spec fn with_tp_spec(self) -> nat {
        self.with_tp as nat
    }

    pub closed spec fn with_gq_spec(self) -> nat {
        self.with_gq as nat
    }

    pub closed spec fn all_spec(self) -> nat {
        self.with_all as nat
    }

    pub open spec fn wf(self) -> bool {
        counts_consistent(
            self.param_spec() as int,
            self.with_tp_spec() as int,
            self.with_gq_spec() as int,
            self.all_spec() as int,
        )
    }

    /// Takes the answers of the foreign count query for (no flags), (only
    /// transformed parameters), (only generated quantities) and (both), as
    /// the foreign side returns them.
    pub fn from_queries(param: i32, with_tp: i32, with_gq: i32, with_all: i32) -> (r: Result<
        ParamCounts,
        BridgeStanError,
    >)
        ensures
            r is Ok <==> param >= 0 && with_tp >= 0 && with_gq >= 0 && with_all >= 0
                && counts_consistent(param as int, with_tp as int, with_gq as int, with_all as int),
            r is Ok ==> r->Ok_0.wf() && r->Ok_0.param_spec() == param && r->Ok_0.with_tp_spec() == with_tp
                && r->Ok_0.with_gq_spec() == with_gq && r->Ok_0.all_spec() == with_all,
            (param < 0 || with_tp < 0 || with_gq < 0 || with_all < 0) ==> r == Err::<ParamCounts, BridgeStanError>(
                BridgeStanError::Query(QueryError::NegativeCount),
            ),
            (param >= 0 && with_tp >= 0 && with_gq >= 0 && with_all >= 0 && !counts_consistent(
                param as int,
                with_tp as int,
                with_gq as int,
                with_all as int,
            )) ==> r == Err::<ParamCounts, BridgeStanError>(BridgeStanError::Query(QueryError::InconsistentCounts)),
    {
        if param < 0 || with_tp < 0 || with_gq < 0 || with_all < 0 {
            return Err(BridgeStanError::Query(QueryError::NegativeCount));
        }
        let total: i64 = (with_tp as i64) + (with_gq as i64) - (param as i64);
        if param <= with_tp && param <= with_gq && (with_all as i64) == total {
            Ok(
                ParamCounts {
                    param: param as usize,
                    with_tp: with_tp as usize,
                    with_gq: with_gq as usize,
                    with_all: with_all as usize,
                },
            )
        } else {
            Err(BridgeStanError::Query(QueryError::InconsistentCounts))
        }
    }

    /// The length of the parameter vector under the given inclusion flags.
    pub fn param_count(&self, include_tp: bool, include_gq: bool) -> (r: usize)
        ensures
            r == selected(*self, include_tp, include_gq),
    {
        if include_tp && include_gq {
            self.with_all
        } else if include_tp {
            self.with_tp
        } else if include_gq {
            self.with_gq
        } else {
            self.param
        }
    }
}

/// What an instance learns about its model once, right after construction.
pub struct ModelInfo {
    name: String,
    counts: ParamCounts,
}

impl ModelInfo {
    pub closed spec fn name_spec(&self) -> Seq<char> {
        self.name@
    }

    pub closed spec fn counts_spec(&self) -> ParamCounts {
        self.counts
    }

    /// The number of entries that the parameter vector and the gradient
    /// buffer of an evaluation must each have.
    pub open spec fn eval_dim(&self) -> nat {
        self.counts_spec().param_spec()
    }

    /// Builds the cache from the raw bytes of the foreign name, if the name
    /// query gave any, and the counts. A missing name, or one that is not
    /// valid UTF-8, is refused.
    pub fn from_queries(name: Option<&[u8]>, counts: ParamCounts) -> (r: Result<ModelInfo, BridgeStanError>)
        ensures
            r is Ok <==> name is Some && valid_utf8(name->Some_0@),
            r is Ok ==> r->Ok_0.name_spec() == decode_utf8(name->Some_0@) && r->Ok_0.counts_spec() == counts,
            name is None ==> r == Err::<ModelInfo, BridgeStanError>(BridgeStanError::Query(QueryError::NoName)),
            name is Some && !valid_utf8(name->Some_0@) ==> r == Err::<ModelInfo, BridgeStanError>(
                BridgeStanError::Query(QueryError::InvalidEncoding),
            ),
    {
        match name {
            None => Err(BridgeStanError::Query(QueryError::NoName)),
            Some(bytes) => match utf8_text(bytes) {
                Some(text) => Ok(ModelInfo { name: text, counts }),
                None => Err(BridgeStanError::Query(QueryError::InvalidEncoding)),
            },
        }
    }

    /// The model's display name.
    pub fn name(&self) -> (r: &String)
        ensures
            r@ == self.name_spec(),
    {
        &self.name
    }

    /// The parameter counts of the model.
    pub fn counts(&self) -> (r: ParamCounts)
        ensures
            r == self.counts_spec(),
    {
        self.counts
    }

    /// The length of the parameter vector under the given inclusion flags.
    pub fn param_count(&self, include_tp: bool, include_gq: bool) -> (r: usize)
        ensures
            r == selected(self.counts_spec(), include_tp, include_gq),
    {
        self.counts.param_count(include_tp, include_gq)
    }

    /// Whether a parameter vector of `theta_len` entries and a gradient buffer
    /// of `grad_len` entries may be handed to the foreign evaluation. When this
    /// is false the call must not be made at all: the foreign side would read
    /// or write past the end of a buffer.
    pub fn lengths_match(&self, theta_len: usize, grad_len: usize) -> (r: bool)
        ensures
            r <==> theta_len == self.eval_dim() && grad_len == self.eval_dim(),
    {
        theta_len == self.counts.param && grad_len == self.counts.param
    }
}

} // verus!
