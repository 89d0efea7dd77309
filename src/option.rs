//! Options written on a geometric Brownian motion stock: what they need from a
//! simulated path, and the bookkeeping of an Asian option's monitoring schedule.
use crate::error::PricingError;
use crate::stock::{
    is_strictly_increasing, strictly_increasing, valid_time_stamps, GeometricBrownianMotionStock, StockState,
};
use crate::utils::TimeStamp;
use std::rc::Rc;
use vstd::prelude::*;

verus! {

/// Marks a type as the underlying of an option: a stock, or any other quantity
/// observed over time.
pub trait Underlying {

}

impl Underlying for GeometricBrownianMotionStock {

}

/// A European option whose payoff depends on the underlying's price at expiry
/// alone. `P` is the payoff rule with its parameters, which the option only carries.
pub struct VanillaStockOption<P> {
    underlying_stock: Rc<GeometricBrownianMotionStock>,
    expiry: TimeStamp,
    payoff: P,
}

impl<P> VanillaStockOption<P> {
    pub closed spec fn spec_underlying(&self) -> GeometricBrownianMotionStock {
        *self.underlying_stock
    }

    pub closed spec fn spec_expiry(&self) -> TimeStamp {
        self.expiry
    }

    pub closed spec fn spec_payoff(&self) -> P {
        self.payoff
    }

    /// The option has expired: its expiry lies before the underlying's current time.
    pub open spec fn spec_expired(&self) -> bool {
        self.spec_expiry()@ < self.spec_underlying().spec_current_time()@
    }

    pub fn new(underlying_stock: &Rc<GeometricBrownianMotionStock>, expiry: TimeStamp, payoff: P) -> (r:
        VanillaStockOption<P>)
        ensures
            r.spec_underlying() == **underlying_stock,
            r.spec_expiry() == expiry,
            r.spec_payoff() == payoff,
    {
        VanillaStockOption { underlying_stock: underlying_stock.clone(), expiry, payoff }
    }

    pub fn get_expiry(&self) -> (r: TimeStamp)
        ensures
            r == self.spec_expiry(),
    {
        self.expiry
    }

    /// A shared handle to the underlying stock.
    pub fn get_underlying(&self) -> (r: Rc<GeometricBrownianMotionStock>)
        ensures
            *r == self.spec_underlying(),
    {
        self.underlying_stock.clone()
    }

    /// The payoff rule and its parameters.
    pub fn get_payoff(&self) -> (r: &P)
        ensures
            *r == self.spec_payoff(),
    {
        &self.payoff
    }

    pub fn is_expired(&self) -> (r: bool)
        ensures
            r == self.spec_expired(),
    {
        self.expiry.lt(&self.underlying_stock.get_current_state().get_time())
    }

    /// One normal sample drives a path: the step from now to expiry.
    pub fn get_dimensionality(&self) -> (r: usize)
        ensures
            r == 1,
    {
        1
    }

    /// The time stamps at which a path is simulated: the expiry alone, or
    /// `OptionExpired` once the expiry has passed.
    pub fn pricing_time_stamps(&self) -> (r: Result<Vec<TimeStamp>, PricingError>)
        ensures
            self.spec_expired() ==> r == Err::<Vec<TimeStamp>, PricingError>(
                PricingError::OptionExpired,
            ),
            !self.spec_expired() ==> (r matches Ok(v) && v@ == seq![self.spec_expiry()]),
            r matches Ok(v) ==> valid_time_stamps(self.spec_underlying().spec_current_time(), v@),
    {
        if self.is_expired() {
            Err(PricingError::OptionExpired)
        } else {
            let v = vec![self.expiry];
            assert(v@ == seq![self.expiry]);
            Ok(v)
        }
    }
}

/// The states' times are strictly increasing.
pub open spec fn states_increasing(h: Seq<StockState>) -> bool {
    forall|i: int, j: int| 0 <= i < j < h.len() ==> h[i].get_time()@ < h[j].get_time()@
}

/// The history `h` with the state `c` recorded: appended unless the last
/// recorded state has the same time.
pub open spec fn with_state(h: Seq<StockState>, c: StockState) -> Seq<StockState> {
    if h.len() > 0 && h.last().get_time() == c.get_time() {
        h
    } else {
        h.push(c)
    }
}

/// Recording the same state twice records it once: `update` is idempotent.
pub proof fn lemma_with_state_idempotent(h: Seq<StockState>, c: StockState)
    ensures
        with_state(with_state(h, c), c) == with_state(h, c),
{
}

/// The time stamps of `s` that lie strictly after `t`, in their order.
pub open spec fn times_after(s: Seq<TimeStamp>, t: TimeStamp) -> Seq<TimeStamp> {
    s.filter(|x: TimeStamp| t@ < x@)
}

/// An option whose payoff depends on the average of the underlying's price over
/// a schedule of monitoring times. It keeps the states of the underlying recorded
/// so far; `P` is the averaging and payoff rule with its parameters.
pub struct AsianOption<P> {
    underlying_stock: Rc<GeometricBrownianMotionStock>,
    expiry: TimeStamp,
    monitoring_times: Vec<TimeStamp>,
    history: Vec<StockState>,
    payoff: P,
}

impl<P> AsianOption<P> {
    #[verifier::type_invariant]
    spec fn inv(self) -> bool {
        &&& strictly_increasing(self.monitoring_times@)
        &&& self.history.len() > 0
        &&& states_increasing(self.history@)
        &&& self.history@.last().get_time()@ <= self.underlying_stock.spec_current_time()@
    }

    pub closed spec fn spec_underlying(&self) -> GeometricBrownianMotionStock {
        *self.underlying_stock
    }

    pub closed spec fn spec_expiry(&self) -> TimeStamp {
        self.expiry
    }

    pub closed spec fn spec_monitoring_times(&self) -> Seq<TimeStamp> {
        self.monitoring_times@
    }

    pub closed spec fn spec_history(&self) -> Seq<StockState> {
        self.history@
    }

    pub closed spec fn spec_payoff(&self) -> P {
        self.payoff
    }

    /// The option has expired: its expiry lies before the underlying's current time.
    pub open spec fn spec_expired(&self) -> bool {
        self.spec_expiry()@ < self.spec_underlying().spec_current_time()@
    }

    /// The monitoring times still to come, which a path has to simulate.
    pub open spec fn spec_future_times(&self) -> Seq<TimeStamp> {
        times_after(self.spec_monitoring_times(), self.spec_underlying().spec_current_time())
    }

    /// The recorded history completed by the underlying's current state.
    pub open spec fn spec_pricing_history(&self) -> Seq<StockState> {
        with_state(self.spec_history(), self.spec_underlying().spec_current_state())
    }

    /// An Asian option on `underlying_stock` whose history starts with the
    /// stock's current state. `monitoring_times` must be strictly increasing;
    /// otherwise the request is refused.
    pub fn new(
        underlying_stock: &Rc<GeometricBrownianMotionStock>,
        expiry: TimeStamp,
        monitoring_times: &Vec<TimeStamp>,
        payoff: P,
    ) -> (r: Result<AsianOption<P>, PricingError>)
        ensures
            r is Ok <==> strictly_increasing(monitoring_times@),
            r is Err ==> r == Err::<AsianOption<P>, PricingError>(PricingError::InvalidPathRequest),
            r matches Ok(o) ==> {
                &&& o.spec_underlying() == **underlying_stock
                &&& o.spec_expiry() == expiry
                &&& o.spec_monitoring_times() == monitoring_times@
                &&& o.spec_history() == seq![underlying_stock.spec_current_state()]
                &&& o.spec_payoff() == payoff
            },
    {
        if !is_strictly_increasing(monitoring_times) {
            return Err(PricingError::InvalidPathRequest);
        }
        let first = underlying_stock.get_current_state();
        proof {
            underlying_stock.lemma_current_state();
        }
        let history = vec![first];
        assert(history@ == seq![first]);
        Ok(
            AsianOption {
                underlying_stock: underlying_stock.clone(),
                expiry,
                monitoring_times: monitoring_times.clone(),
                history,
                payoff,
            },
        )
    }

    pub fn get_expiry(&self) -> (r: TimeStamp)
        ensures
            r == self.spec_expiry(),
    {
        self.expiry
    }

    /// A shared handle to the underlying stock.
    pub fn get_underlying(&self) -> (r: Rc<GeometricBrownianMotionStock>)
        ensures
            *r == self.spec_underlying(),
    {
        self.underlying_stock.clone()
    }

    /// The schedule of monitoring times.
    pub fn get_monitoring_times(&self) -> (r: &Vec<TimeStamp>)
        ensures
            r@ == self.spec_monitoring_times(),
            strictly_increasing(r@),
    {
        proof {
            use_type_invariant(self);
        }
        &self.monitoring_times
    }

    /// The states of the underlying recorded so far.
    pub fn get_history(&self) -> (r: &Vec<StockState>)
        ensures
            r@ == self.spec_history(),
            r@.len() > 0,
            states_increasing(r@),
    {
        proof {
            use_type_invariant(self);
        }
        &self.history
    }

    /// The averaging and payoff rule with its parameters.
    pub fn get_payoff(&self) -> (r: &P)
        ensures
            *r == self.spec_payoff(),
    {
        &self.payoff
    }

    pub fn is_expired(&self) -> (r: bool)
        ensures
            r == self.spec_expired(),
    {
        self.expiry.lt(&self.underlying_stock.get_current_state().get_time())
    }

    /// Records the underlying's current state, unless the last recorded state
    /// already has its time.
    pub fn update(&mut self)
        ensures
            final(self).spec_history() == old(self).spec_pricing_history(),
            final(self).spec_underlying() == old(self).spec_underlying(),
            final(self).spec_expiry() == old(self).spec_expiry(),
            final(self).spec_monitoring_times() == old(self).spec_monitoring_times(),
            final(self).spec_payoff() == old(self).spec_payoff(),
    {
        proof {
            use_type_invariant(&*self);
        }
        self.history = self.pricing_history();
    }

    /// The number of normal samples that one path needs: one for each
    /// monitoring time strictly after the underlying's current time.
    pub fn get_dimensionality(&self) -> (r: usize)
        ensures
            r == self.spec_future_times().len(),
    {
        self.future_monitoring_times().len()
    }

    /// The monitoring times strictly after the underlying's current time, in
    /// order: the times at which a path is simulated. When there are any, they
    /// form a valid request for a path from the current time.
    pub fn future_monitoring_times(&self) -> (r: Vec<TimeStamp>)
        ensures
            r@ == self.spec_future_times(),
            r@.len() > 0 ==> valid_time_stamps(self.spec_underlying().spec_current_time(), r@),
    {
        proof {
            use_type_invariant(self);
        }
        let now = self.underlying_stock.get_current_state().get_time();
        let s = &self.monitoring_times;
        let mut r: Vec<TimeStamp> = Vec::new();
        let mut i: usize = 0;
        while i < s.len()
            invariant
                i <= s.len(),
                strictly_increasing(s@),
                r@ == times_after(s@.subrange(0, i as int), now),
                forall|k: int| 0 <= k < r.len() ==> now@ < #[trigger] r@[k]@,
                strictly_increasing(r@),
                forall|k: int, j: int| 0 <= k < r.len() && i <= j < s.len() ==> r@[k]@ < s@[j]@,
            decreases s.len() - i,
        {
            let t = s[i];
            proof {
                let sub = s@.subrange(0, i + 1);
                assert(sub.drop_last() == s@.subrange(0, i as int));
                assert(sub.last() == t);
                reveal(Seq::filter);
                assert(times_after(sub, now) == if now@ < t@ {
                    times_after(s@.subrange(0, i as int), now).push(t)
                } else {
                    times_after(s@.subrange(0, i as int), now)
                });
            }
            if now.lt(&t) {
                r.push(t);
            }
            i = i + 1;
        }
        assert(s@.subrange(0, s.len() as int) == s@);
        r
    }

    /// The recorded history completed by the underlying's current state: the
    /// states a simulated path continues from.
    pub fn pricing_history(&self) -> (r: Vec<StockState>)
        ensures
            r@ == self.spec_pricing_history(),
            states_increasing(r@),
            r@.len() > 0,
            r@.last().get_time() == self.spec_underlying().spec_current_time(),
    {
        proof {
            use_type_invariant(self);
            self.underlying_stock.lemma_current_state();
        }
        let current = self.underlying_stock.get_current_state();
        let mut r = self.history.clone();
        assert(r@ == self.history@);
        let last = r.len() - 1;
        if !r[last].get_time().same(&current.get_time()) {
            r.push(current);
        }
        r
    }
}

/// Where a monitoring time falls among states of increasing times.
#[derive(Clone, Copy, Debug, PartialEq, Eq, Structural)]
pub enum Bracket {
    /// The state at this index has the monitoring time itself.
    Exact(usize),
    /// The monitoring time lies strictly between the state at this index and the next one.
    Between(usize),
}

/// Locates the monitoring time `t` among `states`: at the first state whose time
/// is not before `t`, exactly or just after the state before it. `None` when `t`
/// lies before the first state or after the last.
pub fn locate(states: &Vec<StockState>, t: TimeStamp) -> (r: Option<Bracket>)
    ensures
        match r {
            Some(Bracket::Exact(j)) => {
                &&& j < states.len()
                &&& states@[j as int].get_time() == t
                &&& forall|i: int| 0 <= i < j ==> #[trigger] states@[i].get_time()@ < t@
            },
            Some(Bracket::Between(j)) => {
                &&& j + 1 < states.len()
                &&& states@[j as int].get_time()@ < t@ < states@[j + 1].get_time()@
                &&& forall|i: int| 0 <= i <= j ==> #[trigger] states@[i].get_time()@ < t@
            },
            None => (forall|i: int| 0 <= i < states.len() ==> #[trigger] states@[i].get_time()@
                < t@) || (states.len() > 0 && t@ < states@[0].get_time()@),
        },
        states_increasing(states@) ==> forall|k: int|
            0 <= k < states.len() && #[trigger] states@[k].get_time() == t ==> r == Some(
                Bracket::Exact(k as usize),
            ),
{
    let mut j: usize = 0;
    while j < states.len() && states[j].get_time().lt(&t)
        invariant
            j <= states.len(),
            forall|i: int| 0 <= i < j ==> #[trigger] states@[i].get_time()@ < t@,
        decreases states.len() - j,
    {
        j = j + 1;
    }
    if j == states.len() {
        None
    } else if states[j].get_time().same(&t) {
        Some(Bracket::Exact(j))
    } else if j == 0 {
        None
    } else {
        Some(Bracket::Between(j - 1))
    }
}

} // verus!
