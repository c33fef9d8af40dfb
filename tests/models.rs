use hydromodels::gr4j::{production_update, routing_update};
use hydromodels::unit_hydrograph::{
    convolve, kernel_lengths, ordinates, s_curves1, s_curves2, Branch,
};
use hydromodels::{GR2MModel, GR2MParams, GR4JModel, GR4JParams, ParamError, Scalar};

/// Double-precision arithmetic for the models.
#[derive(Clone, Copy, Debug, PartialEq)]
struct F(f64);

impl Scalar for F {
    // The value each operation's spec counterpart names is its result.
    fn spec_ratio(num: u32, den: u32) -> F {
        Self::ratio(num, den)
    }
    fn spec_from_count(n: usize) -> F {
        Self::from_count(n)
    }
    fn spec_add(self, other: F) -> F {
        self.add(other)
    }
    fn spec_sub(self, other: F) -> F {
        self.sub(other)
    }
    fn spec_mul(self, other: F) -> F {
        self.mul(other)
    }
    fn spec_div(self, other: F) -> F {
        self.div(other)
    }
    fn spec_min(self, other: F) -> F {
        self.min(other)
    }
    fn spec_max(self, other: F) -> F {
        self.max(other)
    }
    fn spec_powf(self, exponent: F) -> F {
        self.powf(exponent)
    }
    fn spec_tanh(self) -> F {
        self.tanh()
    }
    fn spec_lt(self, other: F) -> bool {
        self.lt(other)
    }
    fn spec_le(self, other: F) -> bool {
        self.le(other)
    }
    fn spec_ceil_count(self) -> usize {
        self.ceil_count()
    }
    fn ratio(num: u32, den: u32) -> F {
        F(f64::from(num) / f64::from(den))
    }
    fn from_count(n: usize) -> F {
        F(n as f64)
    }
    fn add(self, other: F) -> F {
        F(self.0 + other.0)
    }
    fn sub(self, other: F) -> F {
        F(self.0 - other.0)
    }
    fn mul(self, other: F) -> F {
        F(self.0 * other.0)
    }
    fn div(self, other: F) -> F {
        F(self.0 / other.0)
    }
    fn powf(self, exponent: F) -> F {
        F(self.0.powf(exponent.0))
    }
    fn tanh(self) -> F {
        F(self.0.tanh())
    }
    fn min(self, other: F) -> F {
        F(self.0.min(other.0))
    }
    fn max(self, other: F) -> F {
        F(self.0.max(other.0))
    }
    fn lt(self, other: F) -> bool {
        self.0 < other.0
    }
    fn le(self, other: F) -> bool {
        self.0 <= other.0
    }
    fn ceil_count(self) -> usize {
        self.0.ceil() as usize
    }
}

fn wrap(v: &[f64]) -> Vec<F> {
    v.iter().map(|x| F(*x)).collect()
}

fn unwrap(v: &[F]) -> Vec<f64> {
    v.iter().map(|x| x.0).collect()
}

fn gr4j_params(x1: f64, x2: f64, x3: f64, x4: f64) -> GR4JParams<F> {
    GR4JParams { x1: F(x1), x2: F(x2), x3: F(x3), x4: F(x4) }
}

fn run_gr4j(model: &mut GR4JModel<F>, precip: &[f64], pet: &[f64]) -> Vec<f64> {
    unwrap(&model.run(&wrap(precip), &wrap(pet)))
}

#[test]
fn gr4j_create_test() {
    let params = gr4j_params(10., 5., 4., 1.);

    let expected = vec![
        0.13030636843636356,
        0.7348755690383941,
        3.8482364547176102,
        11.246676991863168,
        13.90322269162079,
    ];

    let mut gr4j = GR4JModel::create(params);

    let qsim = run_gr4j(&mut gr4j, &[10., 2., 3., 4., 5.], &[0.5, 0.5, 0.5, 0.5, 0.5]);

    assert_eq!(qsim, expected);
}

#[test]
fn gr4j_simple_test() {
    let params = gr4j_params(10., 5., 4., 1.);

    let expected = vec![
        0.13030636843636356,
        0.7348755690383941,
        3.8482364547176102,
        11.246676991863168,
        13.90322269162079,
    ];

    let mut gr4j: GR4JModel<F> = GR4JModel::default();

    gr4j.init(params, None, None, None, None);
    let qsim = run_gr4j(&mut gr4j, &[10., 2., 3., 4., 5.], &[0.5, 0.5, 0.5, 0.5, 0.5]);

    assert_eq!(qsim, expected);
}

#[test]
fn gr4j_scaled_test() {
    let params = gr4j_params(10., 5., 4., 1.);

    let expected = vec![
        0.13030636843636356,
        0.5196067786804051,
        0.7978026532390882,
        128.2406932741725,
        20.992238476264593,
    ];

    let mut gr4j: GR4JModel<F> = GR4JModel::default();

    gr4j.init(params, None, None, None, None);
    let qsim = run_gr4j(&mut gr4j, &[10., 2., 3., 150., 5.], &[0.5, 14., 0.5, 10., 0.5]);

    assert_eq!(qsim, expected);
}

#[test]
fn gr4j_set_production_store() {
    let params = gr4j_params(10., 5., 4., 1.);

    let expected = vec![
        5.1602235324393675,
        10.091188499285725,
        9.82974398339987,
        136.95699908376093,
        21.019904684254975,
    ];

    let mut gr4j: GR4JModel<F> = GR4JModel::default();

    gr4j.init(params, Some(F(10.)), None, None, None);
    let qsim = run_gr4j(&mut gr4j, &[10., 2., 3., 150., 5.], &[0.5, 14., 0.5, 10., 0.5]);

    assert_eq!(qsim, expected);
}

#[test]
fn gr4j_set_unit_hydrographs() {
    let params = gr4j_params(10., 5., 4., 2.);

    let expected = vec![
        7.031781387527497,
        15.758863927257103,
        10.450019503728232,
        32.38841274927161,
        115.58026737087125,
    ];

    let uh1 = wrap(&[111.13119599074196, 3.7349877368581]);
    let uh2 = wrap(&[
        55.65159496199312,
        57.05053793090891,
        13.713382653511243,
        0.40102046754686754,
    ]);

    let mut gr4j: GR4JModel<F> = GR4JModel::default();

    gr4j.init(params, Some(F(10.)), None, Some(uh1), Some(uh2));
    let qsim = run_gr4j(&mut gr4j, &[10., 2., 3., 150., 5.], &[0.5, 14., 0.5, 10., 0.5]);

    assert_eq!(qsim, expected);
}

#[test]
fn gr4j_set_unit_hydrograph_1() {
    let params = gr4j_params(10., 5., 4., 2.);

    let expected = vec![
        1.326727594436605,
        14.387525661905979,
        10.409917456973545,
        32.38841274927161,
        115.58026737087125,
    ];

    let uh1 = wrap(&[111.13119599074196, 3.7349877368581]);

    let mut gr4j: GR4JModel<F> = GR4JModel::default();

    gr4j.init(params, Some(F(10.)), None, Some(uh1), None);
    let qsim = run_gr4j(&mut gr4j, &[10., 2., 3., 150., 5.], &[0.5, 14., 0.5, 10., 0.5]);

    assert_eq!(qsim, expected);
}

#[test]
fn s_curves1_test() {
    assert_eq!(s_curves1(F(-1.0), F(2.0)).0, 0.0);
    assert_eq!(s_curves1(F(0.0), F(2.0)).0, 0.0);
    assert_eq!(s_curves1(F(1.0), F(2.0)).0, 0.1767766952966369);
    assert_eq!(s_curves1(F(2.0), F(2.0)).0, 1.0);
    assert_eq!(s_curves1(F(2.1), F(2.0)).0, 1.0);
}

#[test]
fn s_curves2_test() {
    assert_eq!(s_curves2(F(-1.0), F(2.0)).0, 0.0);
    assert_eq!(s_curves2(F(0.0), F(2.0)).0, 0.0);
    assert_eq!(s_curves2(F(1.0), F(2.0)).0, 0.08838834764831845);
    assert_eq!(s_curves2(F(2.0), F(2.0)).0, 0.5);
    assert_eq!(s_curves2(F(2.1), F(2.0)).0, 0.5601759051904955);
    assert_eq!(s_curves2(F(4.0), F(2.0)).0, 1.0);
    assert_eq!(s_curves2(F(4.1), F(2.0)).0, 1.0);
}

#[test]
fn gr2m_test() {
    let params = GR2MParams { x1: F(1.), x2: F(1.) };

    let expected = vec![
        0.0009450053530675536,
        0.0327630181266177,
        0.2055971698811445,
        0.6632149029988136,
        0.991927371887451,
        1.0533436405957102,
        0.9029856114321761,
    ];

    let mut gr2m = GR2MModel::create(params);

    let qsim = gr2m.run(
        &wrap(&[1., 2., 3., 4., 3., 2., 1.]),
        &wrap(&[1., 1., 1., 1., 1., 1., 1.]),
    );

    assert_eq!(gr2m.production_store.0, 0.1792526700466929);
    assert_eq!(gr2m.routing_store.0, 6.922989036389427);
    assert_eq!(unwrap(&qsim), expected);
}

fn close(a: f64, b: f64) -> bool {
    (a - b).abs() <= 1e-12 * (1.0 + b.abs())
}

#[test]
fn kernel_lengths_follow_ceilings() {
    assert_eq!(kernel_lengths(F(1.0)), (1, 2));
    assert_eq!(kernel_lengths(F(1.7)), (2, 4));
    assert_eq!(kernel_lengths(F(2.3)), (3, 5));
    assert_eq!(kernel_lengths(F(0.1)), (1, 1));
}

#[test]
fn ordinates_sum_to_one() {
    for x4 in [0.3, 1.0, 1.7, 2.0, 2.3, 4.5] {
        let (n1, n2) = kernel_lengths(F(x4));
        let uh1 = ordinates(Branch::Slow, F(x4), n1);
        let uh2 = ordinates(Branch::Fast, F(x4), n2);
        assert_eq!(uh1.len(), n1);
        assert_eq!(uh2.len(), n2);
        let s1: f64 = uh1.iter().map(|v| v.0).sum();
        let s2: f64 = uh2.iter().map(|v| v.0).sum();
        assert!((s1 - 1.0).abs() < 1e-12);
        assert!((s2 - 1.0).abs() < 1e-12);
        assert!(uh1.iter().chain(uh2.iter()).all(|v| v.0 >= 0.0));
    }
}

#[test]
fn ordinates_of_unit_time_base() {
    assert_eq!(unwrap(&ordinates(Branch::Slow, F(1.0), 1)), vec![1.0]);
    assert_eq!(unwrap(&ordinates(Branch::Fast, F(1.0), 2)), vec![0.5, 0.5]);
    assert!(ordinates(Branch::Slow, F(1.0), 0).is_empty());
}

#[test]
fn s_curves_are_monotone_with_fixed_ends() {
    for x4 in [0.5, 1.0, 2.3] {
        assert_eq!(s_curves1(F(0.0), F(x4)).0, 0.0);
        assert_eq!(s_curves1(F(x4), F(x4)).0, 1.0);
        assert_eq!(s_curves2(F(0.0), F(x4)).0, 0.0);
        assert_eq!(s_curves2(F(2.0 * x4), F(x4)).0, 1.0);
        let mut last1 = 0.0;
        let mut last2 = 0.0;
        for k in -10..=60 {
            let t = F(f64::from(k) * 0.1);
            let v1 = s_curves1(t, F(x4)).0;
            let v2 = s_curves2(t, F(x4)).0;
            assert!(v1 >= last1 && (0.0..=1.0).contains(&v1));
            assert!(v2 >= last2 && (0.0..=1.0).contains(&v2));
            last1 = v1;
            last2 = v2;
        }
    }
}

#[test]
fn convolve_shifts_and_adds() {
    let mut uh = wrap(&[1.0, 2.0, 3.0]);
    convolve(&mut uh, &wrap(&[0.5, 0.25, 0.25]), F(4.0));
    assert_eq!(unwrap(&uh), vec![4.0, 4.0, 1.0]);
}

#[test]
fn convolve_longer_buffer_only_shifts_past_kernel() {
    let mut uh = wrap(&[1.0, 2.0, 3.0, 4.0, 5.0]);
    convolve(&mut uh, &wrap(&[0.5, 0.5]), F(2.0));
    assert_eq!(unwrap(&uh), vec![3.0, 4.0, 4.0, 5.0, 1.0]);
}

#[test]
fn convolve_empty_buffer_or_kernel() {
    let mut empty: Vec<F> = Vec::new();
    convolve(&mut empty, &wrap(&[1.0]), F(2.0));
    assert!(empty.is_empty());
    let mut uh = wrap(&[1.0, 2.0, 3.0]);
    convolve(&mut uh, &Vec::new(), F(2.0));
    assert_eq!(unwrap(&uh), vec![2.0, 3.0, 3.0]);
}

#[test]
fn production_update_net_rain() {
    let (store, routed) = production_update(F(10.), F(0.), F(10.), F(0.5));
    assert!(close(store.0, 7.376373177374883));
    assert!(close(routed.0, 2.123626822625117));
}

#[test]
fn production_update_net_evaporation() {
    let (store, routed) = production_update(F(10.), F(5.), F(1.), F(4.));
    assert!(close(store.0, 3.092655866128593));
    assert!(close(routed.0, 0.0002760354252013819));
}

#[test]
fn routing_update_values() {
    let (store, q) = routing_update(F(5.), F(4.), F(2.), F(1.), F(1.));
    assert!(close(store.0, 3.0262345009430818));
    assert!(close(q.0, 0.8576489755401026));
}

#[test]
fn routing_update_clamps_losses_at_zero() {
    let (store, q) = routing_update(F(-50.), F(4.), F(2.), F(0.), F(0.));
    assert_eq!(store.0, 0.0);
    assert_eq!(q.0, 0.0);
}

#[test]
fn identical_engines_give_identical_output() {
    let precip = [10., 2., 3., 150., 5., 0., 0., 7.];
    let pet = [0.5, 14., 0.5, 10., 0.5, 3., 3., 1.];
    let mut a = GR4JModel::create(gr4j_params(320., -1.5, 70., 2.3));
    let mut b = GR4JModel::create(gr4j_params(320., -1.5, 70., 2.3));
    assert_eq!(run_gr4j(&mut a, &precip, &pet), run_gr4j(&mut b, &precip, &pet));
    assert_eq!(a.production_store, b.production_store);
    assert_eq!(a.routing_store, b.routing_store);
    assert_eq!(a.uh1, b.uh1);
    assert_eq!(a.uh2, b.uh2);
}

#[test]
fn chained_runs_match_one_run() {
    let precip = [10., 2., 3., 150., 5., 0.];
    let pet = [0.5, 14., 0.5, 10., 0.5, 3.];
    let mut whole = GR4JModel::create(gr4j_params(10., 5., 4., 2.3));
    let mut parts = GR4JModel::create(gr4j_params(10., 5., 4., 2.3));
    let all = run_gr4j(&mut whole, &precip, &pet);
    let mut joined = run_gr4j(&mut parts, &precip[..2], &pet[..2]);
    joined.extend(run_gr4j(&mut parts, &precip[2..], &pet[2..]));
    assert_eq!(all, joined);
}

#[test]
fn dry_spell_without_exchange_decays() {
    let mut gr4j = GR4JModel::create(gr4j_params(10., 0., 4., 1.));
    run_gr4j(&mut gr4j, &[50., 30., 20.], &[0.5, 0.5, 0.5]);
    let flow = run_gr4j(&mut gr4j, &[0.; 60], &[0.; 60]);
    for w in flow.windows(2) {
        assert!(w[1] <= w[0]);
    }
    assert!(flow[59] >= 0.0 && flow[59] < flow[0] * 0.1);
}

#[test]
fn run_on_empty_series_keeps_state() {
    let mut gr4j = GR4JModel::create(gr4j_params(10., 5., 4., 2.));
    run_gr4j(&mut gr4j, &[10., 2.], &[0.5, 0.5]);
    let before = (gr4j.production_store, gr4j.routing_store, gr4j.uh1.clone(), gr4j.uh2.clone());
    assert!(run_gr4j(&mut gr4j, &[], &[]).is_empty());
    assert_eq!(
        (gr4j.production_store, gr4j.routing_store, gr4j.uh1.clone(), gr4j.uh2.clone()),
        before
    );
}

#[test]
fn create_sizes_and_clears_buffers() {
    let gr4j = GR4JModel::create(gr4j_params(10., 5., 4., 2.3));
    assert_eq!(unwrap(&gr4j.uh1), vec![0.0; 3]);
    assert_eq!(unwrap(&gr4j.uh2), vec![0.0; 5]);
    assert_eq!(gr4j.production_store.0, 0.0);
    assert_eq!(gr4j.routing_store.0, 0.0);
}

#[test]
fn default_uses_median_parameters() {
    let gr4j: GR4JModel<F> = GR4JModel::default();
    assert_eq!(gr4j.params.x1.0, 350.0);
    assert_eq!(gr4j.params.x2.0, 0.0);
    assert_eq!(gr4j.params.x3.0, 90.0);
    assert_eq!(gr4j.params.x4.0, 1.7);
    assert_eq!(gr4j.uh1.len(), 2);
    assert_eq!(gr4j.uh2.len(), 4);
}

#[test]
fn init_keeps_stores_not_given_and_resizes_buffers() {
    let mut gr4j = GR4JModel::create(gr4j_params(10., 5., 4., 1.));
    run_gr4j(&mut gr4j, &[10., 2.], &[0.5, 0.5]);
    let routing = gr4j.routing_store;
    gr4j.init(gr4j_params(10., 5., 4., 2.3), Some(F(3.)), None, None, None);
    assert_eq!(gr4j.production_store.0, 3.0);
    assert_eq!(gr4j.routing_store, routing);
    assert_eq!(unwrap(&gr4j.uh1), vec![0.0; 3]);
    assert_eq!(unwrap(&gr4j.uh2), vec![0.0; 5]);
}

#[test]
fn init_accepts_overrides_of_any_length() {
    let mut gr4j = GR4JModel::create(gr4j_params(10., 5., 4., 1.));
    gr4j.init(
        gr4j_params(10., 5., 4., 1.),
        None,
        Some(F(2.)),
        Some(wrap(&[1., 2., 3., 4.])),
        Some(Vec::new()),
    );
    assert_eq!(gr4j.routing_store.0, 2.0);
    assert_eq!(unwrap(&gr4j.uh1), vec![1., 2., 3., 4.]);
    assert!(gr4j.uh2.is_empty());
    let q = run_gr4j(&mut gr4j, &[10., 2., 3.], &[0.5, 0.5, 0.5]);
    assert_eq!(q.len(), 3);
    assert_eq!(gr4j.uh1.len(), 4);
    assert!(gr4j.uh2.is_empty());
}

#[test]
fn params_new_accepts_positive_capacities() {
    let p = GR4JParams::new(F(350.), F(-2.), F(90.), F(1.7)).unwrap();
    assert_eq!((p.x1.0, p.x2.0, p.x3.0, p.x4.0), (350., -2., 90., 1.7));
}

#[test]
fn params_new_rejects_each_invalid_parameter() {
    assert_eq!(
        GR4JParams::new(F(0.), F(0.), F(90.), F(1.7)).unwrap_err(),
        ParamError::X1NotPositive
    );
    assert_eq!(
        GR4JParams::new(F(350.), F(0.), F(-1.), F(1.7)).unwrap_err(),
        ParamError::X3NotPositive
    );
    assert_eq!(
        GR4JParams::new(F(350.), F(0.), F(90.), F(0.)).unwrap_err(),
        ParamError::X4NotPositive
    );
    assert_eq!(
        GR4JParams::new(F(350.), F(0.), F(90.), F(f64::NAN)).unwrap_err(),
        ParamError::X4NotPositive
    );
    assert!(ParamError::X3NotPositive.message().contains("x3"));
}

#[test]
fn gr2m_create_and_empty_run() {
    let mut gr2m = GR2MModel::create(GR2MParams { x1: F(1.), x2: F(1.) });
    assert_eq!((gr2m.production_store.0, gr2m.routing_store.0), (0.0, 0.0));
    assert!(gr2m.run(&[], &[]).is_empty());
    assert_eq!((gr2m.production_store.0, gr2m.routing_store.0), (0.0, 0.0));
}

#[test]
fn gr2m_chained_runs_match_one_run() {
    let precip = wrap(&[1., 2., 3., 4., 3., 2., 1.]);
    let pet = wrap(&[1., 1., 1., 1., 1., 1., 1.]);
    let mut whole = GR2MModel::create(GR2MParams { x1: F(1.), x2: F(1.) });
    let mut parts = GR2MModel::create(GR2MParams { x1: F(1.), x2: F(1.) });
    let all = whole.run(&precip, &pet);
    let mut joined = parts.run(&precip[..3], &pet[..3]);
    joined.extend(parts.run(&precip[3..], &pet[3..]));
    assert_eq!(all, joined);
    assert_eq!(whole.production_store, parts.production_store);
    assert_eq!(whole.routing_store, parts.routing_store);
}

#[test]
fn init_without_warm_start_matches_create() {
    let mut initialised: GR4JModel<F> = GR4JModel::default();
    initialised.init(gr4j_params(10., 5., 4., 2.3), None, None, None, None);
    let created = GR4JModel::create(gr4j_params(10., 5., 4., 2.3));
    assert_eq!(initialised.production_store, created.production_store);
    assert_eq!(initialised.routing_store, created.routing_store);
    assert_eq!(initialised.uh1, created.uh1);
    assert_eq!(initialised.uh2, created.uh2);
}
