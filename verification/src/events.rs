use vstd::prelude::*;
use crate::text::{chars_of, decimal, extend_decimal, extend_str, string_of};

verus! {

/// What happens in a loop, as told to the event log. Scores are whole numbers
/// from 0 to 100.
#[derive(Debug)]
#[allow(inconsistent_fields)]
pub enum OuraEvent {
    LoopStarted { loop_id: String, goal: String, timestamp: String },
    LoopStopped { loop_id: String, iterations: u32, timestamp: String },
    LoopCompleted { loop_id: String, iterations: u32, final_score: u32, timestamp: String },
    IterationStarted { loop_id: String, iteration: u32, timestamp: String },
    IterationCompleted { loop_id: String, iteration: u32, score: u32, status: String, timestamp: String },
    FeedbackCollected { loop_id: String, iteration: u32, entry_count: usize, timestamp: String },
    Error { loop_id: Option<String>, message: String, timestamp: String },
}

impl OuraEvent {
    pub open spec fn spec_timestamp(&self) -> Seq<char> {
        match self {
            OuraEvent::LoopStarted { timestamp, .. } => timestamp@,
            OuraEvent::LoopStopped { timestamp, .. } => timestamp@,
            OuraEvent::LoopCompleted { timestamp, .. } => timestamp@,
            OuraEvent::IterationStarted { timestamp, .. } => timestamp@,
            OuraEvent::IterationCompleted { timestamp, .. } => timestamp@,
            OuraEvent::FeedbackCollected { timestamp, .. } => timestamp@,
            OuraEvent::Error { timestamp, .. } => timestamp@,
        }
    }

    /// When the event happened.
    pub fn timestamp(&self) -> (r: &str)
        ensures
            r@ == self.spec_timestamp(),
    {
        match self {
            OuraEvent::LoopStarted { timestamp, .. } => timestamp.as_str(),
            OuraEvent::LoopStopped { timestamp, .. } => timestamp.as_str(),
            OuraEvent::LoopCompleted { timestamp, .. } => timestamp.as_str(),
            OuraEvent::IterationStarted { timestamp, .. } => timestamp.as_str(),
            OuraEvent::IterationCompleted { timestamp, .. } => timestamp.as_str(),
            OuraEvent::FeedbackCollected { timestamp, .. } => timestamp.as_str(),
            OuraEvent::Error { timestamp, .. } => timestamp.as_str(),
        }
    }
}

/// The line the event log writes for an event.
pub open spec fn event_text(e: OuraEvent) -> Seq<char> {
    match e {
        OuraEvent::LoopStarted { loop_id, goal, .. } => "Loop "@ + loop_id@ + " started: "@ + goal@,
        OuraEvent::LoopStopped { loop_id, iterations, .. } => "Loop "@ + loop_id@ + " stopped after "@ + decimal(
            iterations as nat,
        ) + " iterations"@,
        OuraEvent::LoopCompleted { loop_id, iterations, final_score, .. } => "Loop "@ + loop_id@ + " completed: "@
            + decimal(iterations as nat) + " iterations, score "@ + decimal(final_score as nat) + ".0"@,
        OuraEvent::IterationStarted { loop_id, iteration, .. } => "Loop "@ + loop_id@ + " iteration "@ + decimal(
            iteration as nat,
        ) + " started"@,
        OuraEvent::IterationCompleted { loop_id, iteration, score, status, .. } => "Loop "@ + loop_id@
            + " iteration "@ + decimal(iteration as nat) + " completed: score "@ + decimal(score as nat)
            + ".0, status "@ + status@,
        OuraEvent::FeedbackCollected { loop_id, iteration, entry_count, .. } => "Loop "@ + loop_id@
            + " iteration "@ + decimal(iteration as nat) + " collected "@ + decimal(entry_count as nat)
            + " feedback entries"@,
        OuraEvent::Error { loop_id, message, .. } => match loop_id {
            Some(id) => "Loop "@ + id@ + " error: "@ + message@,
            None => "Error: "@ + message@,
        },
    }
}

/// The line the event log writes for an event, as `event_text` states.
pub fn format_event(e: &OuraEvent) -> (r: String)
    ensures
        r@ == event_text(*e),
{
    let v = match e {
        OuraEvent::LoopStarted { loop_id, goal, .. } => {
            let mut v = chars_of("Loop ");
            extend_str(&mut v, loop_id.as_str());
            extend_str(&mut v, " started: ");
            extend_str(&mut v, goal.as_str());
            v
        },
        OuraEvent::LoopStopped { loop_id, iterations, .. } => {
            let mut v = chars_of("Loop ");
            extend_str(&mut v, loop_id.as_str());
            extend_str(&mut v, " stopped after ");
            extend_decimal(&mut v, *iterations as u64);
            extend_str(&mut v, " iterations");
            v
        },
        OuraEvent::LoopCompleted { loop_id, iterations, final_score, .. } => {
            let mut v = chars_of("Loop ");
            extend_str(&mut v, loop_id.as_str());
            extend_str(&mut v, " completed: ");
            extend_decimal(&mut v, *iterations as u64);
            extend_str(&mut v, " iterations, score ");
            extend_decimal(&mut v, *final_score as u64);
            extend_str(&mut v, ".0");
            v
        },
        OuraEvent::IterationStarted { loop_id, iteration, .. } => {
            let mut v = chars_of("Loop ");
            extend_str(&mut v, loop_id.as_str());
            extend_str(&mut v, " iteration ");
            extend_decimal(&mut v, *iteration as u64);
            extend_str(&mut v, " started");
            v
        },
        OuraEvent::IterationCompleted { loop_id, iteration, score, status, .. } => {
            let mut v = chars_of("Loop ");
            extend_str(&mut v, loop_id.as_str());
            extend_str(&mut v, " iteration ");
            extend_decimal(&mut v, *iteration as u64);
            extend_str(&mut v, " completed: score ");
            extend_decimal(&mut v, *score as u64);
            extend_str(&mut v, ".0, status ");
            extend_str(&mut v, status.as_str());
            v
        },
        OuraEvent::FeedbackCollected { loop_id, iteration, entry_count, .. } => {
            let mut v = chars_of("Loop ");
            extend_str(&mut v, loop_id.as_str());
            extend_str(&mut v, " iteration ");
            extend_decimal(&mut v, *iteration as u64);
            extend_str(&mut v, " collected ");
            extend_decimal(&mut v, *entry_count as u64);
            extend_str(&mut v, " feedback entries");
            v
        },
        OuraEvent::Error { loop_id, message, .. } => match loop_id {
            Some(id) => {
                let mut v = chars_of("Loop ");
                extend_str(&mut v, id.as_str());
                extend_str(&mut v, " error: ");
                extend_str(&mut v, message.as_str());
                v
            },
            None => {
                let mut v = chars_of("Error: ");
                extend_str(&mut v, message.as_str());
                v
            },
        },
    };
    string_of(&v)
}

// ---------------------------------------------------------------------------
// Framing of messages to other servers over QUIC: a length of four bytes, most
// significant first, then the message.
// ---------------------------------------------------------------------------

/// The four bytes of `n`, most significant first.
pub open spec fn be_bytes(n: nat) -> Seq<u8> {
    seq![
        ((n / 0x100_0000) % 0x100) as u8,
        ((n / 0x1_0000) % 0x100) as u8,
        ((n / 0x100) % 0x100) as u8,
        (n % 0x100) as u8,
    ]
}

/// The number four bytes stand for, most significant first.
pub open spec fn be_value(b: Seq<u8>) -> nat {
    (b[0] as nat) * 0x100_0000 + (b[1] as nat) * 0x1_0000 + (b[2] as nat) * 0x100 + (b[3] as nat)
}

/// A message framed for the stream: its length, cut to 32 bits, then the bytes.
pub fn frame(body: &Vec<u8>) -> (r: Vec<u8>)
    ensures
        r@ == be_bytes((body@.len() % 0x1_0000_0000) as nat) + body@,
{
    let n: u64 = (body.len() as u64) % 0x1_0000_0000;
    let mut r: Vec<u8> = Vec::new();
    r.push(((n / 0x100_0000) % 0x100) as u8);
    r.push(((n / 0x1_0000) % 0x100) as u8);
    r.push(((n / 0x100) % 0x100) as u8);
    r.push((n % 0x100) as u8);
    let mut i: usize = 0;
    while i < body.len()
        invariant
            i <= body.len(),
            r@ == be_bytes(n as nat) + body@.take(i as int),
        decreases body.len() - i,
    {
        r.push(body[i]);
        i = i + 1;
        assert(r@ =~= be_bytes(n as nat) + body@.take(i as int));
    }
    assert(body@.take(body.len() as int) =~= body@);
    r
}

/// The length a frame announces in its first four bytes.
pub fn frame_len(header: &[u8; 4]) -> (n: u32)
    ensures
        n == be_value(header@),
{
    let b0 = header[0] as u32;
    let b1 = header[1] as u32;
    let b2 = header[2] as u32;
    let b3 = header[3] as u32;
    b0 * 0x100_0000 + b1 * 0x1_0000 + b2 * 0x100 + b3
}

/// Reading back the length of a framed message gives the message's length, for
/// any message under 4 GiB.
pub proof fn law_frame_length_round_trip(n: nat)
    requires
        n < 0x1_0000_0000,
    ensures
        be_value(be_bytes(n)) == n,
{
    let b = be_bytes(n);
    assert(b[0] as nat == (n / 0x100_0000) % 0x100);
    assert(b[1] as nat == (n / 0x1_0000) % 0x100);
    assert(b[2] as nat == (n / 0x100) % 0x100);
    assert(b[3] as nat == n % 0x100);
    assert(be_value(b) == n) by (nonlinear_arith)
        requires
            n < 0x1_0000_0000,
            b[0] as nat == (n / 0x100_0000) % 0x100,
            b[1] as nat == (n / 0x1_0000) % 0x100,
            b[2] as nat == (n / 0x100) % 0x100,
            b[3] as nat == n % 0x100,
            be_value(b) == (b[0] as nat) * 0x100_0000 + (b[1] as nat) * 0x1_0000 + (b[2] as nat) * 0x100 + (b[3] as nat),
    ;
}

} // verus!
