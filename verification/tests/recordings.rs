use misa::axis::AxisId;
use misa::cli::Cli;
use misa::command::Command;
use misa::intent::Intent;
use misa::observation::Observation;
use misa::record::{Frame, FORMAT_VERSION};
use misa::recording::{check_version, read_chunks, too_large, write_chunk, MAX_CHUNK_BYTES};
use misa::replay::{agreement_line, compare, divergence_line, replay_task, summarize, Comparison, ReplayTask};
use misa::safety::SafetyVerdict;
use misa::scalar::Scalar;
use misa::time::Time;

fn recording(payloads: &[&[u8]]) -> Vec<u8> {
    let mut out = Vec::new();
    for p in payloads {
        write_chunk(&mut out, p);
    }
    out
}

#[test]
fn what_is_written_is_what_comes_back() {
    let big = vec![7u8; 70_000];
    let bytes = recording(&[b"header", b"", &big, b"x"]);
    assert_eq!(&bytes[..10], &[6, 0, 0, 0, b'h', b'e', b'a', b'd', b'e', b'r']);
    let c = read_chunks(&bytes);
    assert_eq!(c.damage, None);
    assert_eq!(c.payloads, vec![b"header".to_vec(), vec![], big, b"x".to_vec()]);
}

#[test]
fn a_truncated_recording_still_reads_up_to_where_it_was_cut() {
    let mut payloads: Vec<Vec<u8>> = Vec::new();
    for i in 0..32u8 {
        payloads.push(vec![i; 20]);
    }
    let refs: Vec<&[u8]> = payloads.iter().map(|p| p.as_slice()).collect();
    let full = recording(&refs);
    let c = read_chunks(&full[..full.len() - 7]);
    assert_eq!(c.damage, None);
    assert_eq!(c.payloads, payloads[..31].to_vec());
    let c = read_chunks(&full[..full.len() - 22]);
    assert_eq!(c.payloads.len(), 31);
    assert_eq!(read_chunks(&[]).payloads.len(), 0);
}

#[test]
fn a_recording_from_another_format_version_is_refused() {
    assert!(check_version("a.rec", FORMAT_VERSION).is_ok());
    let e = check_version("a.rec", FORMAT_VERSION + 1).unwrap_err();
    assert!(e.contains("書式"), "{e}");
    assert_eq!(e, "a.rec は書式 v2 です（このビルドは v1）");
}

#[test]
fn a_damaged_length_stops_the_reading() {
    let mut bytes = recording(&[b"ok"]);
    let len = MAX_CHUNK_BYTES + 1;
    bytes.extend_from_slice(&len.to_le_bytes());
    bytes.extend_from_slice(b"rest");
    let c = read_chunks(&bytes);
    assert_eq!(c.payloads, vec![b"ok".to_vec()]);
    assert_eq!(c.damage, Some(len));
    assert_eq!(too_large(len), "フレームが大きすぎます (4194305 byte)。記録が壊れています");
}

fn frame(seq: u64, q: f64, verdict: SafetyVerdict) -> Frame {
    let mut command = Command::idle(1);
    command.get_mut(AxisId::new(0)).unwrap().position_rad = Scalar::from_bits(q.to_bits());
    Frame {
        seq,
        time: Time::from_nanos(seq),
        intent: Intent::default(),
        observation: Observation::empty(1, 4),
        command,
        verdict,
    }
}

#[test]
fn a_summary_counts_every_intervention() {
    let clean = SafetyVerdict::default();
    let clamped = SafetyVerdict { clamped: vec![AxisId::new(0)], ..SafetyVerdict::default() };
    let both = SafetyVerdict {
        rate_limited: vec![AxisId::new(0)],
        held_for_stale_observation: true,
        ..SafetyVerdict::default()
    };
    let faulted = SafetyVerdict { faulted: vec![AxisId::new(0)], ..SafetyVerdict::default() };
    let frames = vec![frame(0, 0.0, clean), frame(1, 0.0, clamped), frame(2, 0.0, both), frame(3, 0.0, faulted)];
    let sum = summarize(&frames);
    assert_eq!(sum.periods, 4);
    assert_eq!(sum.touched, 3);
    assert_eq!((sum.clamped, sum.rate_limited, sum.held, sum.faulted), (1, 1, 1, 1));
}

#[test]
fn recordings_of_different_axes_are_not_compared() {
    let a = vec!["FL_hip_joint".to_string()];
    let b = vec!["FR_hip_joint".to_string()];
    let x = vec![frame(0, 0.5, SafetyVerdict::default())];
    let y = vec![frame(0, 0.6, SafetyVerdict::default())];
    assert!(matches!(compare(&a, &x, &b, &x, 20), Comparison::Incomparable));
    assert!(matches!(compare(&a, &x, &a, &x, 20), Comparison::Same { periods: 1 }));
    match compare(&a, &x, &a, &y, 20) {
        Comparison::Different(d) => assert_eq!(d.len(), 1),
        _ => panic!("they differ"),
    }
    assert_eq!(agreement_line(12), "食い違いなし（12 周期を比較。指令は 1 bit も変わっていません）");
    assert_eq!(divergence_line(3, 20), "食い違い 3 件（先頭 20 件まで）");
}

#[test]
fn a_replay_takes_one_or_two_recordings() {
    let cli = |args: &[&str]| Cli::parse(args.iter().map(|a| a.to_string()).collect());
    assert_eq!(replay_task(&cli(&["replay", "a"])), ReplayTask::Summary("a"));
    assert_eq!(replay_task(&cli(&["replay", "a", "b"])), ReplayTask::Compare("a", "b"));
    assert_eq!(replay_task(&cli(&["replay"])), ReplayTask::Usage);
    assert_eq!(replay_task(&cli(&["replay", "a", "b", "c"])), ReplayTask::Usage);
}
