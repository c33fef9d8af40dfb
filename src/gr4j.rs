//! GR4J: the four-parameter daily rainfall-runoff model.
use vstd::prelude::*;

use crate::scalar::{spec_one, spec_zero, zero, Scalar};
use crate::unit_hydrograph::{
    convolve, convolve_spec, kernel_lengths, kernel_lengths_spec, kernel_spec, ordinates, Branch,
};

verus! {

/// The four GR4J parameters.
#[derive(Clone, Copy, Debug)]
pub struct GR4JParams<T> {
    /// Maximum capacity of the production store (mm).
    pub x1: T,
    /// Groundwater exchange coefficient (mm); negative when the catchment
    /// loses water.
    pub x2: T,
    /// Reference capacity of the routing store (mm).
    pub x3: T,
    /// Time base of the unit hydrographs, in steps (may be fractional).
    pub x4: T,
}

/// A parameter outside the range on which the model is defined.
#[derive(Clone, Copy, Debug, PartialEq, Eq, Structural)]
pub enum ParamError {
    /// The production store capacity `x1` is not positive.
    X1NotPositive,
    /// The routing store capacity `x3` is not positive.
    X3NotPositive,
    /// The unit-hydrograph time base `x4` is not positive.
    X4NotPositive,
}

impl ParamError {
    /// A short description of the error.
    pub fn message(&self) -> (r: &'static str) {
        match self {
            ParamError::X1NotPositive => "x1 (production store capacity) must be positive",
            ParamError::X3NotPositive => "x3 (routing store capacity) must be positive",
            ParamError::X4NotPositive => "x4 (unit hydrograph time base) must be positive",
        }
    }
}

impl<T: Scalar> GR4JParams<T> {
    /// The model is defined: `x1`, `x3` and `x4` are positive.
    pub open spec fn valid(&self) -> bool {
        &&& spec_zero::<T>().spec_lt(self.x1)
        &&& spec_zero::<T>().spec_lt(self.x3)
        &&& spec_zero::<T>().spec_lt(self.x4)
    }

    /// Checks that `x1`, `x3` and `x4` are positive (in that order) and
    /// gathers the four parameters.
    pub fn new(x1: T, x2: T, x3: T, x4: T) -> (r: Result<Self, ParamError>)
        ensures
            r is Ok <==> (GR4JParams { x1, x2, x3, x4 }).valid(),
            r matches Ok(p) ==> p == (GR4JParams { x1, x2, x3, x4 }),
            !spec_zero::<T>().spec_lt(x1) ==> r == Err::<Self, ParamError>(
                ParamError::X1NotPositive,
            ),
            spec_zero::<T>().spec_lt(x1) && !spec_zero::<T>().spec_lt(x3) ==> r == Err::<
                Self,
                ParamError,
            >(ParamError::X3NotPositive),
            spec_zero::<T>().spec_lt(x1) && spec_zero::<T>().spec_lt(x3) && !spec_zero::<
                T,
            >().spec_lt(x4) ==> r == Err::<Self, ParamError>(ParamError::X4NotPositive),
    {
        if !zero::<T>().lt(x1) {
            Err(ParamError::X1NotPositive)
        } else if !zero::<T>().lt(x3) {
            Err(ParamError::X3NotPositive)
        } else if !zero::<T>().lt(x4) {
            Err(ParamError::X4NotPositive)
        } else {
            Ok(GR4JParams { x1, x2, x3, x4 })
        }
    }
}

/// The production store of capacity `x1` holding `store`, under rainfall `p`
/// and potential evaporation `e`: the new content of the store and the
/// effective rainfall handed on to routing.
pub open spec fn production_spec<T: Scalar>(x1: T, store: T, p: T, e: T) -> (T, T) {
    let one = spec_one::<T>();
    let limit = T::spec_ratio(13, 1);
    let fill = store.spec_div(x1);
    // (net evaporation, production, effective rainfall before percolation)
    let exchange = if e.spec_lt(p) {
        let th = limit.spec_min(p.spec_sub(e).spec_div(x1)).spec_tanh();
        let production = x1.spec_mul(one.spec_sub(fill.spec_powf(T::spec_ratio(2, 1)))).spec_mul(
            th,
        ).spec_div(one.spec_add(fill.spec_mul(th)));
        (spec_zero::<T>(), production, p.spec_sub(e).spec_sub(production))
    } else {
        let th = limit.spec_min(e.spec_sub(p).spec_div(x1)).spec_tanh();
        let evap = store.spec_mul(T::spec_ratio(2, 1).spec_sub(fill).spec_mul(th)).spec_div(
            one.spec_add(one.spec_sub(fill).spec_mul(th)),
        );
        (evap, spec_zero::<T>(), spec_zero::<T>())
    };
    let filled = store.spec_sub(exchange.0).spec_add(exchange.1);
    let percolation = filled.spec_div(
        one.spec_add(
            filled.spec_div(T::spec_ratio(9, 4)).spec_div(x1).spec_powf(T::spec_ratio(4, 1)),
        ).spec_powf(T::spec_ratio(1, 4)),
    );
    (percolation, exchange.2.spec_add(filled.spec_sub(percolation)))
}

/// One step of the production store of capacity `x1` holding `store`, under
/// rainfall `p` and potential evaporation `e`.
///
/// Returns the new content of the store and the effective rainfall handed
/// on to routing (what exceeds the store's uptake, plus percolation).
pub fn production_update<T: Scalar>(x1: T, store: T, p: T, e: T) -> (r: (T, T))
    ensures
        r == production_spec(x1, store, p, e),
{
    let one = T::ratio(1, 1);
    let limit = T::ratio(13, 1);
    let fill = store.div(x1);
    let (net_evap, reservoir_production, routing_pattern) = if e.lt(p) {
        let scaled_net_precip = limit.min(p.sub(e).div(x1));
        let th = scaled_net_precip.tanh();
        let production = x1.mul(one.sub(fill.powf(T::ratio(2, 1)))).mul(th).div(
            one.add(fill.mul(th)),
        );
        (zero(), production, p.sub(e).sub(production))
    } else {
        let scaled_net_evap = limit.min(e.sub(p).div(x1));
        let th = scaled_net_evap.tanh();
        let evap = store.mul(T::ratio(2, 1).sub(fill).mul(th)).div(
            one.add(one.sub(fill).mul(th)),
        );
        (evap, zero(), zero())
    };
    let store = store.sub(net_evap).add(reservoir_production);
    let percolation = store.div(
        one.add(store.div(T::ratio(9, 4)).div(x1).powf(T::ratio(4, 1))).powf(T::ratio(1, 4)),
    );
    (percolation, routing_pattern.add(store.sub(percolation)))
}

/// The routing store of reference capacity `x3` holding `store`, with
/// exchange coefficient `x2`, fed `slow` and `fast` by the unit hydrographs:
/// the new content of the store and the streamflow of the step. The
/// groundwater exchange is added to both branches.
pub open spec fn routing_spec<T: Scalar>(x2: T, x3: T, store: T, slow: T, fast: T) -> (T, T) {
    let one = spec_one::<T>();
    let groundwater_exchange = x2.spec_mul(store.spec_div(x3).spec_powf(T::spec_ratio(7, 2)));
    let fed = spec_zero::<T>().spec_max(
        store.spec_add(slow.spec_mul(T::spec_ratio(9, 10))).spec_add(groundwater_exchange),
    );
    let r2 = fed.spec_div(
        one.spec_add(fed.spec_div(x3).spec_powf(T::spec_ratio(4, 1))).spec_powf(
            T::spec_ratio(1, 4),
        ),
    );
    let qr = fed.spec_sub(r2);
    let qd = spec_zero::<T>().spec_max(
        fast.spec_mul(T::spec_ratio(1, 10)).spec_add(groundwater_exchange),
    );
    (r2, qr.spec_add(qd))
}

/// One step of the routing store; see [`routing_spec`].
pub fn routing_update<T: Scalar>(x2: T, x3: T, store: T, slow: T, fast: T) -> (r: (T, T))
    ensures
        r == routing_spec(x2, x3, store, slow, fast),
{
    let one = T::ratio(1, 1);
    let groundwater_exchange = x2.mul(store.div(x3).powf(T::ratio(7, 2)));
    let store = zero::<T>().max(store.add(slow.mul(T::ratio(9, 10))).add(groundwater_exchange));
    let r2 = store.div(one.add(store.div(x3).powf(T::ratio(4, 1))).powf(T::ratio(1, 4)));
    let qr = store.sub(r2);
    let qd = zero::<T>().max(fast.mul(T::ratio(1, 10)).add(groundwater_exchange));
    (r2, qr.add(qd))
}

/// What a convolution buffer delivers at the current step: its first slot,
/// or zero for an empty buffer.
pub open spec fn due_spec<T: Scalar>(uh: Seq<T>) -> T {
    if uh.len() > 0 {
        uh[0]
    } else {
        spec_zero()
    }
}

/// What a convolution buffer delivers at the current step.
pub fn due<T: Scalar>(uh: &Vec<T>) -> (r: T)
    ensures
        r == due_spec(uh@),
{
    if uh.len() > 0 {
        uh[0]
    } else {
        zero()
    }
}

/// `n` zeros.
pub open spec fn zeros<T: Scalar>(n: nat) -> Seq<T> {
    Seq::new(n, |_i: int| spec_zero::<T>())
}

/// A buffer of `n` zeros.
fn zero_buffer<T: Scalar>(n: usize) -> (r: Vec<T>)
    ensures
        r@ == zeros::<T>(n as nat),
{
    let dry = zero();
    let mut r: Vec<T> = Vec::with_capacity(n);
    let mut i: usize = 0;
    while i < n
        invariant
            i <= n,
            dry == spec_zero::<T>(),
            r@ == zeros::<T>(i as nat),
        decreases n - i,
    {
        r.push(dry);
        i += 1;
        assert(r@ =~= zeros::<T>(i as nat));
    }
    r
}

/// A GR4J engine: parameters, the two stores and the two convolution buffers.
pub struct GR4JModel<T> {
    pub params: GR4JParams<T>,
    /// Content of the production (soil moisture) store.
    pub production_store: T,
    /// Content of the routing store.
    pub routing_store: T,
    /// Convolution buffer of the slow branch (90% of effective rainfall).
    pub uh1: Vec<T>,
    /// Convolution buffer of the fast branch (10% of effective rainfall).
    pub uh2: Vec<T>,
}

/// The state of a GR4J engine, with its buffers as sequences.
pub struct GR4JState<T> {
    pub params: GR4JParams<T>,
    pub production_store: T,
    pub routing_store: T,
    pub uh1: Seq<T>,
    pub uh2: Seq<T>,
}

impl<T> View for GR4JModel<T> {
    type V = GR4JState<T>;

    open spec fn view(&self) -> GR4JState<T> {
        GR4JState {
            params: self.params,
            production_store: self.production_store,
            routing_store: self.routing_store,
            uh1: self.uh1@,
            uh2: self.uh2@,
        }
    }
}

/// Cold start: both stores at zero, the buffers zero at the kernel lengths
/// `ceil(x4)` and `ceil(2 x4)`.
pub open spec fn create_spec<T: Scalar>(params: GR4JParams<T>) -> GR4JState<T> {
    GR4JState {
        params,
        production_store: spec_zero(),
        routing_store: spec_zero(),
        uh1: zeros(kernel_lengths_spec(params.x4).0 as nat),
        uh2: zeros(kernel_lengths_spec(params.x4).1 as nat),
    }
}

/// The median parameters of the GR4J literature: `x1 = 350`, `x2 = 0`,
/// `x3 = 90`, `x4 = 1.7`.
pub open spec fn default_params_spec<T: Scalar>() -> GR4JParams<T> {
    GR4JParams {
        x1: T::spec_ratio(350, 1),
        x2: spec_zero(),
        x3: T::spec_ratio(90, 1),
        x4: T::spec_ratio(17, 10),
    }
}

/// `init` on state `s`: new parameters; each store given takes its value,
/// the others keep theirs; each buffer given is taken as it is, the others
/// are zeros at the kernel lengths of the new `x4`.
pub open spec fn init_spec<T: Scalar>(
    s: GR4JState<T>,
    params: GR4JParams<T>,
    production_store: Option<T>,
    routing_store: Option<T>,
    uh1: Option<Seq<T>>,
    uh2: Option<Seq<T>>,
) -> GR4JState<T> {
    GR4JState {
        params,
        production_store: match production_store {
            Some(v) => v,
            None => s.production_store,
        },
        routing_store: match routing_store {
            Some(v) => v,
            None => s.routing_store,
        },
        uh1: match uh1 {
            Some(v) => v,
            None => zeros(kernel_lengths_spec(params.x4).0 as nat),
        },
        uh2: match uh2 {
            Some(v) => v,
            None => zeros(kernel_lengths_spec(params.x4).1 as nat),
        },
    }
}

/// The contents of an optional buffer.
pub open spec fn buffer_view<T>(b: Option<Vec<T>>) -> Option<Seq<T>> {
    match b {
        Some(v) => Some(v@),
        None => None,
    }
}

/// One step on state `s` with kernels `ord1` and `ord2`: the new state and
/// the streamflow of the step.
pub open spec fn step_spec<T: Scalar>(
    s: GR4JState<T>,
    p: T,
    e: T,
    ord1: Seq<T>,
    ord2: Seq<T>,
) -> (GR4JState<T>, T) {
    let production = production_spec(s.params.x1, s.production_store, p, e);
    let uh1 = convolve_spec(s.uh1, ord1, production.1);
    let uh2 = convolve_spec(s.uh2, ord2, production.1);
    let routing = routing_spec(
        s.params.x2,
        s.params.x3,
        s.routing_store,
        due_spec(uh1),
        due_spec(uh2),
    );
    (
        GR4JState {
            params: s.params,
            production_store: production.0,
            routing_store: routing.0,
            uh1,
            uh2,
        },
        routing.1,
    )
}

/// The steps over the paired series, in order, with fixed kernels: the
/// final state and the streamflow of each step.
pub open spec fn run_with<T: Scalar>(
    s: GR4JState<T>,
    precip: Seq<T>,
    pet: Seq<T>,
    ord1: Seq<T>,
    ord2: Seq<T>,
) -> (GR4JState<T>, Seq<T>)
    decreases precip.len(),
{
    if precip.len() == 0 {
        (s, Seq::empty())
    } else {
        let before = run_with(s, precip.drop_last(), pet.drop_last(), ord1, ord2);
        let last = step_spec(before.0, precip.last(), pet[precip.len() - 1], ord1, ord2);
        (last.0, before.1.push(last.1))
    }
}

/// A run from state `s`, with the kernels of its `x4`.
pub open spec fn run_spec<T: Scalar>(s: GR4JState<T>, precip: Seq<T>, pet: Seq<T>) -> (
    GR4JState<T>,
    Seq<T>,
) {
    run_with(
        s,
        precip,
        pet,
        kernel_spec(Branch::Slow, s.params.x4),
        kernel_spec(Branch::Fast, s.params.x4),
    )
}

/// A run keeps the parameters and the buffer lengths, and gives one value
/// per step.
pub proof fn lemma_run_keeps_shape<T: Scalar>(
    s: GR4JState<T>,
    precip: Seq<T>,
    pet: Seq<T>,
    ord1: Seq<T>,
    ord2: Seq<T>,
)
    ensures
        run_with(s, precip, pet, ord1, ord2).0.params == s.params,
        run_with(s, precip, pet, ord1, ord2).0.uh1.len() == s.uh1.len(),
        run_with(s, precip, pet, ord1, ord2).0.uh2.len() == s.uh2.len(),
        run_with(s, precip, pet, ord1, ord2).1.len() == precip.len(),
    decreases precip.len(),
{
    if precip.len() > 0 {
        lemma_run_keeps_shape(s, precip.drop_last(), pet.drop_last(), ord1, ord2);
    }
}

proof fn lemma_run_with_append<T: Scalar>(
    s: GR4JState<T>,
    a1: Seq<T>,
    b1: Seq<T>,
    a2: Seq<T>,
    b2: Seq<T>,
    ord1: Seq<T>,
    ord2: Seq<T>,
)
    requires
        a1.len() == b1.len(),
        a2.len() == b2.len(),
    ensures
        run_with(s, a1 + a2, b1 + b2, ord1, ord2) == (
            run_with(run_with(s, a1, b1, ord1, ord2).0, a2, b2, ord1, ord2).0,
            run_with(s, a1, b1, ord1, ord2).1 + run_with(
                run_with(s, a1, b1, ord1, ord2).0,
                a2,
                b2,
                ord1,
                ord2,
            ).1,
        ),
    decreases a2.len(),
{
    let first = run_with(s, a1, b1, ord1, ord2);
    if a2.len() == 0 {
        assert(a1 + a2 =~= a1);
        assert(b1 + b2 =~= b1);
        assert(first.1 + Seq::<T>::empty() =~= first.1);
    } else {
        lemma_run_with_append(s, a1, b1, a2.drop_last(), b2.drop_last(), ord1, ord2);
        assert((a1 + a2).drop_last() =~= a1 + a2.drop_last());
        assert((b1 + b2).drop_last() =~= b1 + b2.drop_last());
        let before = run_with(first.0, a2.drop_last(), b2.drop_last(), ord1, ord2);
        let last = step_spec(before.0, a2.last(), b2[a2.len() - 1], ord1, ord2);
        assert((first.1 + before.1).push(last.1) =~= first.1 + before.1.push(last.1));
    }
}

/// Running two series one after the other is running their concatenation:
/// the state persists between calls, and the outputs join up.
pub proof fn lemma_run_chains<T: Scalar>(
    s: GR4JState<T>,
    precip1: Seq<T>,
    pet1: Seq<T>,
    precip2: Seq<T>,
    pet2: Seq<T>,
)
    requires
        precip1.len() == pet1.len(),
        precip2.len() == pet2.len(),
    ensures
        run_spec(s, precip1 + precip2, pet1 + pet2) == (
            run_spec(run_spec(s, precip1, pet1).0, precip2, pet2).0,
            run_spec(s, precip1, pet1).1 + run_spec(run_spec(s, precip1, pet1).0, precip2, pet2).1,
        ),
{
    let ord1 = kernel_spec(Branch::Slow, s.params.x4);
    let ord2 = kernel_spec(Branch::Fast, s.params.x4);
    lemma_run_keeps_shape(s, precip1, pet1, ord1, ord2);
    lemma_run_with_append(s, precip1, pet1, precip2, pet2, ord1, ord2);
}

/// Two engines started cold from the same parameters and fed the same
/// series give the same streamflow and end in the same state.
pub proof fn lemma_cold_starts_agree<T: Scalar>(
    a: GR4JState<T>,
    b: GR4JState<T>,
    params: GR4JParams<T>,
    precip: Seq<T>,
    pet: Seq<T>,
)
    requires
        a == create_spec(params),
        b == create_spec(params),
    ensures
        run_spec(a, precip, pet) == run_spec(b, precip, pet),
{
}

/// A cold start sizes the buffers `ceil(x4)` and `ceil(2 x4)`, and any run
/// keeps these lengths.
pub proof fn lemma_kernel_lengths_kept<T: Scalar>(
    params: GR4JParams<T>,
    precip: Seq<T>,
    pet: Seq<T>,
)
    ensures
        create_spec(params).uh1.len() == kernel_lengths_spec(params.x4).0,
        create_spec(params).uh2.len() == kernel_lengths_spec(params.x4).1,
        run_spec(create_spec(params), precip, pet).0.uh1.len() == kernel_lengths_spec(
            params.x4,
        ).0,
        run_spec(create_spec(params), precip, pet).0.uh2.len() == kernel_lengths_spec(
            params.x4,
        ).1,
{
    lemma_run_keeps_shape(
        create_spec(params),
        precip,
        pet,
        kernel_spec(Branch::Slow, params.x4),
        kernel_spec(Branch::Fast, params.x4),
    );
}

/// `init` with no warm-start value, on an engine whose stores are at zero,
/// gives the same engine as a cold start on the same parameters.
pub proof fn lemma_init_without_warm_start_is_cold_start<T: Scalar>(
    s: GR4JState<T>,
    params: GR4JParams<T>,
)
    requires
        s.production_store == spec_zero::<T>(),
        s.routing_store == spec_zero::<T>(),
    ensures
        init_spec(s, params, None, None, None, None) == create_spec(params),
{
}

impl<T: Scalar> GR4JModel<T> {
    fn cold_start(params: GR4JParams<T>) -> (r: Self)
        ensures
            r@ == create_spec(params),
    {
        let (n_uh1, n_uh2) = kernel_lengths(params.x4);
        GR4JModel {
            params,
            production_store: zero(),
            routing_store: zero(),
            uh1: zero_buffer(n_uh1),
            uh2: zero_buffer(n_uh2),
        }
    }

    /// Cold start: an engine for `params` with both stores and every buffer
    /// slot at zero, the buffers sized `ceil(x4)` and `ceil(2 x4)`.
    pub fn create(params: GR4JParams<T>) -> (r: Self)
        requires
            params.valid(),
        ensures
            r@ == create_spec(params),
    {
        Self::cold_start(params)
    }

    /// Advances the engine one step with the given kernels and returns the
    /// streamflow of the step.
    fn step(&mut self, p: T, e: T, uh1_ordinates: &Vec<T>, uh2_ordinates: &Vec<T>) -> (q: T)
        ensures
            (final(self)@, q) == step_spec(old(self)@, p, e, uh1_ordinates@, uh2_ordinates@),
    {
        let (store, routing_pattern) = production_update(
            self.params.x1,
            self.production_store,
            p,
            e,
        );
        self.production_store = store;
        convolve(&mut self.uh1, uh1_ordinates, routing_pattern);
        convolve(&mut self.uh2, uh2_ordinates, routing_pattern);
        let (store, q) = routing_update(
            self.params.x2,
            self.params.x3,
            self.routing_store,
            due(&self.uh1),
            due(&self.uh2),
        );
        self.routing_store = store;
        q
    }

    /// Simulates one step per pair of rainfall and potential evaporation
    /// samples, in order, and returns the streamflow of each step.
    ///
    /// The kernels are derived from the current `x4` at each call. The state
    /// carries over to the next call.
    pub fn run(&mut self, precip: &[T], potential_evap: &[T]) -> (r: Vec<T>)
        requires
            precip@.len() == potential_evap@.len(),
        ensures
            (final(self)@, r@) == run_spec(old(self)@, precip@, potential_evap@),
    {
        let (n_uh1, n_uh2) = kernel_lengths(self.params.x4);
        let uh1_ordinates = ordinates(Branch::Slow, self.params.x4, n_uh1);
        let uh2_ordinates = ordinates(Branch::Fast, self.params.x4, n_uh2);
        let mut qsim: Vec<T> = Vec::with_capacity(precip.len());
        let mut t: usize = 0;
        while t < precip.len()
            invariant
                precip@.len() == potential_evap@.len(),
                t <= precip@.len(),
                uh1_ordinates@ == kernel_spec(Branch::Slow, old(self)@.params.x4),
                uh2_ordinates@ == kernel_spec(Branch::Fast, old(self)@.params.x4),
                (self@, qsim@) == run_with(
                    old(self)@,
                    precip@.take(t as int),
                    potential_evap@.take(t as int),
                    uh1_ordinates@,
                    uh2_ordinates@,
                ),
            decreases precip@.len() - t,
        {
            let q = self.step(precip[t], potential_evap[t], &uh1_ordinates, &uh2_ordinates);
            qsim.push(q);
            t += 1;
            assert(precip@.take(t as int).drop_last() =~= precip@.take(t - 1));
            assert(potential_evap@.take(t as int).drop_last() =~= potential_evap@.take(t - 1));
        }
        assert(precip@.take(t as int) =~= precip@);
        assert(potential_evap@.take(t as int) =~= potential_evap@);
        qsim
    }

    /// Sets the parameters and resets the buffers to zero at the kernel sizes
    /// of the new `x4`, then applies the warm-start values that are given:
    /// each store that is given takes its value, the others keep theirs; a
    /// buffer that is given replaces the reset one as it is, whatever its
    /// length.
    pub fn init(
        &mut self,
        params: GR4JParams<T>,
        production_store: Option<T>,
        routing_store: Option<T>,
        uh1: Option<Vec<T>>,
        uh2: Option<Vec<T>>,
    )
        requires
            params.valid(),
        ensures
            final(self)@ == init_spec(
                old(self)@,
                params,
                production_store,
                routing_store,
                buffer_view(uh1),
                buffer_view(uh2),
            ),
    {
        self.params = params;
        if let Some(ps) = production_store {
            self.production_store = ps;
        }
        if let Some(rs) = routing_store {
            self.routing_store = rs;
        }
        let (n_uh1, n_uh2) = kernel_lengths(params.x4);
        self.uh1 = match uh1 {
            Some(v) => v,
            None => zero_buffer(n_uh1),
        };
        self.uh2 = match uh2 {
            Some(v) => v,
            None => zero_buffer(n_uh2),
        };
    }
}

impl<T: Scalar> Default for GR4JModel<T> {
    /// A cold-started engine with the median parameters of the GR4J
    /// literature: `x1 = 350`, `x2 = 0`, `x3 = 90`, `x4 = 1.7`.
    fn default() -> (r: Self)
        ensures
            r@ == create_spec(default_params_spec::<T>()),
    {
        GR4JModel::cold_start(
            GR4JParams {
                x1: T::ratio(350, 1),
                x2: zero(),
                x3: T::ratio(90, 1),
                x4: T::ratio(17, 10),
            },
        )
    }
}

} // verus!
