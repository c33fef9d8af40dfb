//! GR2M: the two-parameter monthly water-balance model.
use vstd::prelude::*;

use crate::scalar::{spec_one, spec_zero, zero, Scalar};

verus! {

/// The two GR2M parameters.
#[derive(Clone, Copy, Debug)]
pub struct GR2MParams<T> {
    /// Capacity of the production store (mm).
    pub x1: T,
    /// Groundwater exchange factor applied to the routing store.
    pub x2: T,
}

/// A GR2M engine: parameters and the two stores.
pub struct GR2MModel<T> {
    pub params: GR2MParams<T>,
    /// Content of the production (soil moisture) store.
    pub production_store: T,
    /// Content of the routing store.
    pub routing_store: T,
}

/// One month on engine `m` under rainfall `p` and potential evaporation `e`:
/// the new engine and the streamflow of the month.
pub open spec fn gr2m_step_spec<T: Scalar>(m: GR2MModel<T>, p: T, e: T) -> (GR2MModel<T>, T) {
    let one = spec_one::<T>();
    let x1 = m.params.x1;
    let x2 = m.params.x2;
    let store = m.production_store;
    let phi = p.spec_div(x1).spec_tanh();
    let psi = e.spec_div(x1).spec_tanh();
    let s1 = store.spec_add(x1.spec_mul(phi)).spec_div(
        one.spec_add(phi.spec_mul(store.spec_div(x1))),
    );
    let rain_excess = p.spec_add(store).spec_sub(s1);
    let s2 = s1.spec_mul(one.spec_sub(psi)).spec_div(
        one.spec_add(psi.spec_mul(one.spec_sub(s1.spec_div(x1)))),
    );
    let production_store = s2.spec_div(
        one.spec_add(s2.spec_div(x1).spec_powf(T::spec_ratio(3, 1))).spec_powf(
            T::spec_ratio(1, 3),
        ),
    );
    let percolated = s2.spec_sub(production_store);
    let r1 = m.routing_store.spec_add(rain_excess.spec_add(percolated));
    let r2 = x2.spec_mul(r1);
    let q = r2.spec_powf(T::spec_ratio(2, 1)).spec_div(r2.spec_add(T::spec_ratio(60, 1)));
    (GR2MModel { params: m.params, production_store, routing_store: r2.spec_sub(q) }, q)
}

/// The months over the paired series, in order: the final engine and the
/// streamflow of each month.
pub open spec fn gr2m_run_spec<T: Scalar>(m: GR2MModel<T>, precip: Seq<T>, pet: Seq<T>) -> (
    GR2MModel<T>,
    Seq<T>,
)
    decreases precip.len(),
{
    if precip.len() == 0 {
        (m, Seq::empty())
    } else {
        let before = gr2m_run_spec(m, precip.drop_last(), pet.drop_last());
        let last = gr2m_step_spec(before.0, precip.last(), pet[precip.len() - 1]);
        (last.0, before.1.push(last.1))
    }
}

proof fn lemma_gr2m_run_append<T: Scalar>(
    m: GR2MModel<T>,
    a1: Seq<T>,
    b1: Seq<T>,
    a2: Seq<T>,
    b2: Seq<T>,
)
    requires
        a1.len() == b1.len(),
        a2.len() == b2.len(),
    ensures
        gr2m_run_spec(m, a1 + a2, b1 + b2) == (
            gr2m_run_spec(gr2m_run_spec(m, a1, b1).0, a2, b2).0,
            gr2m_run_spec(m, a1, b1).1 + gr2m_run_spec(gr2m_run_spec(m, a1, b1).0, a2, b2).1,
        ),
    decreases a2.len(),
{
    let first = gr2m_run_spec(m, a1, b1);
    if a2.len() == 0 {
        assert(a1 + a2 =~= a1);
        assert(b1 + b2 =~= b1);
        assert(first.1 + Seq::<T>::empty() =~= first.1);
    } else {
        lemma_gr2m_run_append(m, a1, b1, a2.drop_last(), b2.drop_last());
        assert((a1 + a2).drop_last() =~= a1 + a2.drop_last());
        assert((b1 + b2).drop_last() =~= b1 + b2.drop_last());
        let before = gr2m_run_spec(first.0, a2.drop_last(), b2.drop_last());
        let last = gr2m_step_spec(before.0, a2.last(), b2[a2.len() - 1]);
        assert((first.1 + before.1).push(last.1) =~= first.1 + before.1.push(last.1));
    }
}

/// Running two series one after the other is running their concatenation:
/// the stores persist between calls, and the outputs join up.
pub proof fn lemma_gr2m_run_chains<T: Scalar>(
    m: GR2MModel<T>,
    precip1: Seq<T>,
    pet1: Seq<T>,
    precip2: Seq<T>,
    pet2: Seq<T>,
)
    requires
        precip1.len() == pet1.len(),
        precip2.len() == pet2.len(),
    ensures
        gr2m_run_spec(m, precip1 + precip2, pet1 + pet2) == (
            gr2m_run_spec(gr2m_run_spec(m, precip1, pet1).0, precip2, pet2).0,
            gr2m_run_spec(m, precip1, pet1).1 + gr2m_run_spec(
                gr2m_run_spec(m, precip1, pet1).0,
                precip2,
                pet2,
            ).1,
        ),
{
    lemma_gr2m_run_append(m, precip1, pet1, precip2, pet2);
}

impl<T: Scalar> GR2MModel<T> {
    /// Cold start: an engine for `params` with both stores at zero.
    pub fn create(params: GR2MParams<T>) -> (r: Self)
        ensures
            r == (GR2MModel { params, production_store: spec_zero(), routing_store: spec_zero() }),
    {
        GR2MModel { params, production_store: zero(), routing_store: zero() }
    }

    /// Advances the engine one month and returns its streamflow.
    fn step(&mut self, p: T, e: T) -> (q: T)
        ensures
            (*final(self), q) == gr2m_step_spec(*old(self), p, e),
    {
        let one = T::ratio(1, 1);
        let x1 = self.params.x1;
        let x2 = self.params.x2;
        let phi = p.div(x1).tanh();
        let psi = e.div(x1).tanh();
        let s1 = self.production_store.add(x1.mul(phi)).div(
            one.add(phi.mul(self.production_store.div(x1))),
        );
        let rain_excess = p.add(self.production_store).sub(s1);
        let s2 = s1.mul(one.sub(psi)).div(one.add(psi.mul(one.sub(s1.div(x1)))));
        self.production_store = s2.div(
            one.add(s2.div(x1).powf(T::ratio(3, 1))).powf(T::ratio(1, 3)),
        );
        let percolated = s2.sub(self.production_store);
        let r1 = self.routing_store.add(rain_excess.add(percolated));
        let r2 = x2.mul(r1);
        let q = r2.powf(T::ratio(2, 1)).div(r2.add(T::ratio(60, 1)));
        self.routing_store = r2.sub(q);
        q
    }

    /// Simulates one month per pair of rainfall and potential evaporation
    /// samples, in order, and returns the streamflow of each month. The
    /// stores carry over to the next call.
    pub fn run(&mut self, precip: &[T], potential_evap: &[T]) -> (r: Vec<T>)
        requires
            precip@.len() == potential_evap@.len(),
        ensures
            (*final(self), r@) == gr2m_run_spec(*old(self), precip@, potential_evap@),
    {
        let mut qsim: Vec<T> = Vec::with_capacity(precip.len());
        let mut t: usize = 0;
        while t < precip.len()
            invariant
                precip@.len() == potential_evap@.len(),
                t <= precip@.len(),
                (*self, qsim@) == gr2m_run_spec(
                    *old(self),
                    precip@.take(t as int),
                    potential_evap@.take(t as int),
                ),
            decreases precip@.len() - t,
        {
            let q = self.step(precip[t], potential_evap[t]);
            qsim.push(q);
            t += 1;
            assert(precip@.take(t as int).drop_last() =~= precip@.take(t - 1));
            assert(potential_evap@.take(t as int).drop_last() =~= potential_evap@.take(t - 1));
        }
        assert(precip@.take(t as int) =~= precip@);
        assert(potential_evap@.take(t as int) =~= potential_evap@);
        qsim
    }
}

} // verus!
