use terralib::binary32::Binary32;
use terralib::effects::{
    lightning_round, perform, Breathe, EffectEvent, EffectStep, Flash, LIGHTNING_DRAWS,
    LIGHTNING_SETTLE_MILLIS,
};
use terralib::terrarium::{FakeTerrarium, Terrarium};

fn number(value: f32) -> Binary32 {
    Binary32::from_bits(value.to_bits())
}

fn flash(base: f32, hundredths: u32, hold_ms: u64) -> Flash {
    Flash { base: number(base), hundredths, hold_ms }
}

fn draws(first: &[u64]) -> Vec<u64> {
    let mut all = first.to_vec();
    while all.len() < LIGHTNING_DRAWS {
        all.push(1_000_000 + all.len() as u64);
    }
    all
}

#[test]
fn breathing_goes_up_and_down() {
    let (effect, first) = Breathe::start(number(0.3), number(0.05), number(0.5), 1_000);
    assert_eq!(first, EffectStep::Fade { target: number(0.5), millis: 500 });
    let (effect, second) = effect.next(EffectEvent::TimerElapsed);
    assert_eq!(second, EffectStep::Fade { target: number(0.05), millis: 500 });
    let (effect, third) = effect.unwrap().next(EffectEvent::TimerElapsed);
    assert_eq!(third, EffectStep::Fade { target: number(0.5), millis: 500 });
    let effect = effect.unwrap();
    assert!(effect.up);
    assert_eq!(effect.lights_before, number(0.3));
}

#[test]
fn a_cancelled_effect_puts_the_lights_back() {
    let mut terrarium = FakeTerrarium::new();
    terrarium.set_lights(number(0.3));
    let (effect, first) = Breathe::start(terrarium.get_lights(), number(0.05), number(0.5), 100);
    perform(first, &mut terrarium);
    assert_eq!(terrarium.get_lights(), number(0.5));
    let (effect, down) = effect.next(EffectEvent::TimerElapsed);
    perform(down, &mut terrarium);
    assert_eq!(terrarium.get_lights(), number(0.05));
    let (effect, last) = effect.unwrap().next(EffectEvent::Cancelled);
    assert_eq!(last, EffectStep::Finish { restore: number(0.3) });
    perform(last, &mut terrarium);
    assert_eq!(terrarium.get_lights(), number(0.3));
    // The effect is over.
    assert_eq!(effect, None);

    // Cancelled at once, it still puts the lights back.
    let (effect, _) = Breathe::start(number(0.7), number(0.05), number(0.5), 100);
    assert_eq!(
        effect.next(EffectEvent::Cancelled),
        (None, EffectStep::Finish { restore: number(0.7) })
    );
}

#[test]
fn half_a_period_fits_a_fade() {
    let (_, first) = Breathe::start(number(0.0), number(0.0), number(1.0), u32::MAX);
    assert_eq!(first, EffectStep::Fade { target: number(1.0), millis: i32::MAX });
    let (_, first) = Breathe::start(number(0.0), number(0.0), number(1.0), 1);
    assert_eq!(first, EffectStep::Fade { target: number(1.0), millis: 0 });
}

#[test]
fn too_few_random_numbers_make_no_lightning() {
    assert_eq!(LIGHTNING_DRAWS, 27);
    assert_eq!(LIGHTNING_SETTLE_MILLIS, 3000);
    assert_eq!(lightning_round(&vec![]), None);
    assert_eq!(lightning_round(&vec![0; 26]), None);
    assert!(lightning_round(&vec![0; 27]).is_some());
}

#[test]
fn a_single_flash() {
    let round = lightning_round(&draws(&[39, 119, 1_234, 7_000])).unwrap();
    assert_eq!(round, vec![flash(0.8, 19, 50 + 34), flash(0.15, 0, 1000 + 0)]);
    let round = lightning_round(&draws(&[100, 0, 0, 3_499])).unwrap();
    assert_eq!(round, vec![flash(0.8, 0, 50), flash(0.15, 0, 4_499)]);
}

#[test]
fn a_double_flash() {
    let round = lightning_round(&draws(&[40, 5, 49, 9, 50, 14, 199, 1])).unwrap();
    assert_eq!(
        round,
        vec![
            flash(0.7, 5, 50 + 49),
            flash(0.2, 9, 30 + 0),
            flash(0.85, 14, 100 + 99),
            flash(0.15, 0, 1001),
        ]
    );
    assert_eq!(lightning_round(&draws(&[69])).unwrap().len(), 4);
}

#[test]
fn a_complex_flash() {
    // Three flashes: the second number is a multiple of four.
    let mut numbers = vec![70, 4];
    for k in 0..3u64 {
        numbers.extend_from_slice(&[10 + k, 100 + k, 20 + k, 200 + k]);
    }
    numbers.push(3_500 + 17);
    let round = lightning_round(&draws(&numbers)).unwrap();
    assert_eq!(
        round,
        vec![
            flash(0.5, 10, 30 + 10),
            flash(0.15, 5, 20 + 40),
            flash(0.5, 11, 30 + 11),
            flash(0.15, 6, 20 + 41),
            flash(0.5, 12, 30 + 12),
            flash(0.15, 7, 20 + 42),
            flash(0.15, 0, 1017),
        ]
    );
    // Six flashes use up all the numbers.
    let mut numbers = vec![89, 3];
    numbers.extend(std::iter::repeat(0).take(24));
    numbers.push(5);
    let round = lightning_round(&numbers).unwrap();
    assert_eq!(round.len(), 13);
    assert_eq!(round[12], flash(0.15, 0, 1005));
    assert_eq!(round[0], flash(0.5, 0, 30));
    assert_eq!(round[11], flash(0.15, 0, 20));
}

#[test]
fn a_distant_flash() {
    let round = lightning_round(&draws(&[90, 21, 399, 19, 150, 3_500])).unwrap();
    assert_eq!(
        round,
        vec![flash(0.3, 1, 200 + 199), flash(0.15, 9, 100 + 50), flash(0.15, 0, 1000)]
    );
    assert_eq!(lightning_round(&draws(&[99])).unwrap().len(), 3);
    assert_eq!(lightning_round(&draws(&[u64::MAX])).unwrap().len(), 2);
}
