use laermampel::echo::{frames_of, Echo, Lesson, Reference, Residual, Status, STATS_EVERY_BLOCKS, TALK_FREEZE_BLOCKS};
use laermampel::ring::{queue, sample_or_silence, surplus, SampleSink};
use laermampel::single::Single;

const EXTRA_DB: f32 = laermampel::echo::EXTRA_DB as f32;

fn n(x: f32) -> Single {
    Single { bits: x.to_bits() }
}

fn f(x: Single) -> f32 {
    f32::from_bits(x.bits)
}

/// A block through the residual, with the arithmetic around the decisions.
fn gain(r: &mut Residual, far_db: f32, near_db: f32) -> f32 {
    let excess = (near_db - (far_db + f(r.coupling_db))) / laermampel::echo::TALK_MARGIN_DB as f32;
    let target = match r.listen(n(far_db), n(near_db - far_db), n(excess)) {
        Lesson::Silent => 0.0,
        Lesson::Heard { ratio, k, speech } => {
            let coupling = f(r.coupling_db);
            r.learn(n(coupling + (f(ratio) - coupling) * f(k)));
            EXTRA_DB * (1.0 - f(speech))
        }
    };
    let c = r.aim(n(target));
    let duck = f(r.duck_db);
    r.settle(n(duck + (f(c.target) - duck) * f(c.k)));
    10f32.powf(-f(r.duck_db) / 20.0)
}

fn settle(far_db: f32, near_db: f32, blocks: usize) -> f32 {
    let mut residual = Residual::default();
    let mut g = 1.0;
    for _ in 0..blocks {
        g = gain(&mut residual, far_db, near_db);
    }
    -20.0 * g.log10()
}

#[test]
fn restecho_wird_zusaetzlich_gedaempft() {
    let damping = settle(-20.0, -45.0, 200);
    assert!(damping > EXTRA_DB - 0.5, "nur {damping:.1} dB gedämpft");
}

#[test]
fn stimme_bleibt_stehen() {
    let mut residual = Residual::default();
    for _ in 0..100 {
        gain(&mut residual, -20.0, -45.0);
    }
    let mut g = 1.0;
    for _ in 0..20 {
        g = gain(&mut residual, -20.0, -25.0);
    }
    let damping = -20.0 * g.log10();
    assert!(damping < 1.0, "Stimme um {damping:.1} dB abgesenkt");
}

#[test]
fn ohne_ton_keine_daempfung() {
    let damping = settle(-90.0, -30.0, 100);
    assert!(damping.abs() < 0.1, "{damping:.1} dB ohne Grund gedämpft");
}

#[test]
fn langes_reden_wird_nicht_zu_echo() {
    let mut residual = Residual::default();
    for _ in 0..100 {
        gain(&mut residual, -20.0, -45.0);
    }
    let mut g = 1.0;
    for _ in 0..500 {
        g = gain(&mut residual, -20.0, -25.0);
    }
    let damping = -20.0 * g.log10();
    assert!(damping < 1.0, "Stimme nach langem Reden um {damping:.1} dB abgesenkt");
}

#[test]
fn schaetzung_zieht_nach() {
    let mut residual = Residual::default();
    for _ in 0..200 {
        gain(&mut residual, -20.0, -45.0);
    }
    let mut g = 1.0;
    for _ in 0..2000 {
        g = gain(&mut residual, -20.0, -25.0);
    }
    let damping = -20.0 * g.log10();
    assert!(damping > EXTRA_DB - 1.0, "nach dem Nachziehen nur {damping:.1} dB gedämpft");
}

#[test]
fn lautes_echo_wird_erkannt() {
    let damping = settle(-15.0, -18.0, 200);
    assert!(damping > EXTRA_DB - 0.5, "nur {damping:.1} dB gedämpft");
}

#[test]
fn speech_does_not_teach_until_it_lasts_too_long() {
    let mut r = Residual::default();
    r.learn(n(-25.0));
    for block in 1..=450u32 {
        let Lesson::Heard { k, speech, .. } = r.listen(n(-20.0), n(-5.0), n(2.5)) else { panic!("something is playing") };
        assert_eq!(f(speech), 1.0);
        assert_eq!(f(k), if block < TALK_FREEZE_BLOCKS { 0.0 } else { 0.004 }, "block {block}");
        assert_eq!(r.talking_blocks, block);
    }
    // Down at once, even while somebody speaks.
    let Lesson::Heard { ratio, k, .. } = r.listen(n(-20.0), n(-200.0), n(2.5)) else { panic!("something is playing") };
    assert_eq!((f(ratio), f(k)), (-90.0, 0.2));
    // A quiet block: up slowly, and the count begins anew.
    let Lesson::Heard { k, .. } = r.listen(n(-20.0), n(-5.0), n(0.5)) else { panic!("something is playing") };
    assert_eq!((f(k), r.talking_blocks), (0.002, 0));
    assert!(matches!(r.listen(n(-60.5), n(0.0), n(0.0)), Lesson::Silent));
}

#[test]
fn status_says_nothing_before_it_knows() {
    let mut s = Status::default();
    assert_eq!((s.erle_db(), s.delay_ms(), s.underruns()), (None, None, 0));
    s.report(Some(123), Some(40));
    assert_eq!((s.erle_db(), s.delay_ms()), (Some(123), Some(40)));
    s.report(None, None);
    assert_eq!((s.erle_db(), s.delay_ms()), (Some(123), None));
    s.count_underrun();
    assert_eq!(s.underruns(), 1);
    s.underruns = u32::MAX;
    s.count_underrun();
    assert_eq!(s.underruns(), 0);
}

fn reference(capacity: usize, rate: u32) -> (SampleSink, Reference) {
    let (sink, samples) = queue(capacity).unwrap();
    (sink, Reference { name: "Kopfhörer".to_string(), rate, samples })
}

fn push(sink: &mut SampleSink, range: std::ops::Range<usize>) {
    for i in range {
        assert!(sink.push(n(i as f32)));
    }
}

fn values(block: &[Single]) -> Vec<f32> {
    block.iter().map(|&x| f(x)).collect()
}

#[test]
fn a_short_block_is_filled_with_silence() {
    let (mut sink, mut r) = reference(100, 48_000);
    push(&mut sink, 1..4);
    let mut block = vec![n(9.0); 5];
    assert!(r.take_block(&mut block));
    assert_eq!(values(&block), [1.0, 2.0, 3.0, 0.0, 0.0]);
    push(&mut sink, 10..20);
    assert!(!r.take_block(&mut block));
    assert_eq!(values(&block), [10.0, 11.0, 12.0, 13.0, 14.0]);
    assert_eq!(r.samples.waiting(), 5);
}

#[test]
fn what_piled_up_is_trimmed_to_two_blocks() {
    let (mut sink, mut r) = reference(100, 48_000);
    push(&mut sink, 0..20);
    r.trim(10);
    assert_eq!(r.samples.waiting(), 20);
    push(&mut sink, 20..33);
    r.trim(10);
    assert_eq!(r.samples.waiting(), 20);
    let mut block = vec![n(0.0); 2];
    r.take_block(&mut block);
    assert_eq!(values(&block), [13.0, 14.0]);
}

#[test]
fn blocks_of_ten_milliseconds() {
    assert_eq!(frames_of(48_000), 480);
    assert_eq!(frames_of(44_100), 441);
    assert_eq!(frames_of(11_025), 110);
    assert_eq!(frames_of(u32::MAX), 42_949_672);
}

#[test]
fn microphone_comes_out_a_block_later() {
    let (mut sink, r) = reference(48_000, 1000);
    let mut echo = Echo::new(500, r);
    assert_eq!(echo.reference_name(), "Kopfhörer");
    assert_eq!((echo.mic_frames, echo.ref_frames), (5, 10));
    let mut stats = 0;
    for i in 0..1000usize {
        if echo.push(n(i as f32)) {
            let before = echo.status.underruns;
            if i % 2 == 0 {
                push(&mut sink, 0..10);
            }
            let played = echo.played();
            assert_eq!(played.len(), 10);
            if i % 2 == 0 {
                assert_eq!(values(&played), [0.0, 1.0, 2.0, 3.0, 4.0, 5.0, 6.0, 7.0, 8.0, 9.0]);
                assert_eq!(echo.status.underruns, before);
            } else {
                assert_eq!(values(&played), [0.0; 10]);
                assert_eq!(echo.status.underruns, before + 1);
            }
            // Every other block the canceller fails; then the block goes on as it is.
            let out = if i % 10 == 4 { Some(echo.mic_in.iter().map(|&x| n(f(x) + 0.5)).collect()) } else { None };
            if echo.finish(out) {
                stats += 1;
            }
        }
        let y = f(echo.next());
        if i < 4 {
            assert_eq!(y, 0.0);
        } else {
            let at = i - 4;
            assert_eq!(y, at as f32 + if at % 10 < 5 { 0.5 } else { 0.0 });
        }
    }
    assert_eq!(stats, 200 / STATS_EVERY_BLOCKS);
}

#[test]
fn a_gap_is_silence_and_nothing_is_read_twice() {
    let (mut sink, mut r) = reference(100, 48_000);
    for i in 1..=3u32 {
        assert!(sink.push(Single { bits: i }));
    }
    let mut block = vec![Single { bits: 9 }; 5];
    assert!(r.take_block(&mut block));
    assert_eq!(block.iter().map(|s| s.bits).collect::<Vec<u32>>(), [1, 2, 3, 0, 0]);
    for i in 4..=8u32 {
        assert!(sink.push(Single { bits: i }));
    }
    assert!(!r.take_block(&mut block));
    assert_eq!(block.iter().map(|s| s.bits).collect::<Vec<u32>>(), [4, 5, 6, 7, 8]);
    assert_eq!(r.samples.waiting(), 0);
    assert_eq!(sample_or_silence(None).bits, 0);
    assert_eq!(sample_or_silence(Some(7)).bits, 7);
    assert_eq!((surplus(10, 4), surplus(4, 10), surplus(4, 4)), (6, 0, 0));
}
