use dlpipe::stream::{percent, StreamEvent, Streamer};

#[test]
fn percent_is_the_integer_ratio() {
    assert_eq!(percent(100, 0), 0);
    assert_eq!(percent(100, 50), 50);
    assert_eq!(percent(100, 100), 100);
    assert_eq!(percent(3, 1), 33);
    assert_eq!(percent(10_000_000, 65_536), 0);
    assert_eq!(percent(0, 0), 100);
}

#[test]
fn empty_file_is_complete_from_the_start() {
    let s = Streamer::new(0);
    assert!(s.is_complete());
}

#[test]
fn single_block_file_gets_full_progress_then_chunk() {
    let mut s = Streamer::new(10);
    let events = s.on_chunk(vec![7u8; 10]);
    assert_eq!(events.len(), 2);
    assert!(matches!(events[0], StreamEvent::Progress(100)));
    match &events[1] {
        StreamEvent::Chunk(d) => assert_eq!(d.len(), 10),
        _ => panic!("expected a chunk event"),
    }
    assert!(s.is_complete());
}

#[test]
fn unchanged_percentage_emits_only_the_chunk() {
    let mut s = Streamer::new(1000);
    let first = s.on_chunk(vec![0u8; 1]);
    // the first block always emits a progress event, here 0%
    assert_eq!(first.len(), 2);
    assert!(matches!(first[0], StreamEvent::Progress(0)));
    let second = s.on_chunk(vec![0u8; 1]);
    // still 0%: no progress event, but the chunk is always delivered
    assert_eq!(second.len(), 1);
    assert!(matches!(second[0], StreamEvent::Chunk(_)));
}

#[test]
fn ten_megabyte_file_in_64k_blocks() {
    let total: u64 = 10_000_000;
    let block: usize = 64 * 1024;
    let mut s = Streamer::new(total);
    let mut sent: u64 = 0;
    let mut chunk_events: u64 = 0;
    let mut blocks: u64 = 0;
    let mut progress: Vec<i32> = Vec::new();
    let mut chunk_bytes: u64 = 0;
    while sent < total {
        let n = std::cmp::min(block as u64, total - sent) as usize;
        let events = s.on_chunk(vec![0u8; n]);
        sent += n as u64;
        blocks += 1;
        for e in events {
            match e {
                StreamEvent::Progress(p) => progress.push(p),
                StreamEvent::Chunk(d) => {
                    chunk_events += 1;
                    chunk_bytes += d.len() as u64;
                }
                StreamEvent::Error(_) => panic!("no error event expected"),
            }
        }
    }
    // every block became exactly one chunk event, and the cumulative byte
    // count equals the size captured at open time
    assert_eq!(chunk_events, blocks);
    assert_eq!(chunk_bytes, total);
    assert!(s.is_complete());
    // progress: strictly increasing, within 0..=100, first event at the
    // percentage the first block reached (here 0%), last at 100%
    assert!(!progress.is_empty());
    assert_eq!(progress[0], 0);
    assert_eq!(*progress.last().unwrap(), 100);
    for w in progress.windows(2) {
        assert!(w[0] < w[1]);
    }
    for p in &progress {
        assert!(0 <= *p && *p <= 100);
    }
}
