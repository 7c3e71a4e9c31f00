//! The GPU stress scenario's pacing: a fixed mix of pen strokes then erase
//! strokes, one operation per presented frame, each frame's timing measured.

use vstd::prelude::*;

use crate::performance::tracker::FrameSample;
use crate::text::{chars_of, contains_str, contains_text, push_decimal, push_str, string_from_chars};

verus! {

/// Pen strokes in the scenario.
pub const DRAW_OPERATION_COUNT: usize = 1000;
/// Erase strokes in the scenario, after the pen strokes.
pub const ERASE_OPERATION_COUNT: usize = 200;
/// All operations of the scenario.
pub const TOTAL_OPERATION_COUNT: usize = 1200;
/// The slowest accepted 95th-percentile input-to-display latency: 33 ms.
pub const INPUT_P95_LIMIT_NANOS: u64 = 33000000;
/// The PCI vendor identifier of Intel, as the adapter description shows it.
pub const INTEL_VENDOR_ID: &'static str = "0x8086";

/// Whether the switch's value turns the scenario on: `1`, or `true` in any
/// ASCII case.
pub open spec fn switch_enables(value: Seq<char>) -> bool {
    ||| value == seq!['1']
    ||| (value.len() == 4 && (value[0] == 't' || value[0] == 'T') && (value[1] == 'r' || value[1]
        == 'R') && (value[2] == 'u' || value[2] == 'U') && (value[3] == 'e' || value[3] == 'E'))
}

/// Whether the value of the scenario's environment switch turns it on.
pub fn benchmark_enabled(value: Option<&str>) -> (enabled: bool)
    ensures
        enabled == (value matches Some(v) && switch_enables(v@)),
{
    let value = match value {
        Some(value) => value,
        None => return false,
    };
    let chars = chars_of(value);
    if chars.len() == 1 && chars[0] == '1' {
        assert(chars@ =~= seq!['1']);
        return true;
    }
    if chars.len() != 1 {
        assert(!(chars@ =~= seq!['1']));
    }
    chars.len() == 4 && (chars[0] == 't' || chars[0] == 'T') && (chars[1] == 'r' || chars[1] == 'R')
        && (chars[2] == 'u' || chars[2] == 'U') && (chars[3] == 'e' || chars[3] == 'E')
}

/// The operation the scenario appends next.
#[derive(Debug, Clone, Copy, PartialEq, Eq, Structural)]
pub enum BenchmarkOperation {
    /// The pen stroke at this grid index.
    Draw(usize),
    /// The erase stroke at this grid index.
    Erase(usize),
}

/// The operation at position `index` of the scenario, if there is one.
pub open spec fn operation_at(index: int) -> Option<BenchmarkOperation> {
    if 0 <= index < DRAW_OPERATION_COUNT {
        Some(BenchmarkOperation::Draw(index as usize))
    } else if DRAW_OPERATION_COUNT <= index < TOTAL_OPERATION_COUNT {
        Some(BenchmarkOperation::Erase((index - DRAW_OPERATION_COUNT) as usize))
    } else {
        None
    }
}

/// The operation at position `index` of the scenario, or the message for an
/// index beyond it.
pub fn benchmark_operation(index: usize) -> (res: Result<BenchmarkOperation, String>)
    ensures
        match operation_at(index as int) {
            Some(operation) => res == Ok::<BenchmarkOperation, String>(operation),
            None => res matches Err(message) && message@ == "GPU 压力场景收到越界 operation 索引 "@
                + crate::text::decimal(index as nat),
        },
{
    if index < DRAW_OPERATION_COUNT {
        Ok(BenchmarkOperation::Draw(index))
    } else if index < TOTAL_OPERATION_COUNT {
        Ok(BenchmarkOperation::Erase(index - DRAW_OPERATION_COUNT))
    } else {
        let mut chars: Vec<char> = Vec::new();
        push_str(&mut chars, "GPU 压力场景收到越界 operation 索引 ");
        push_decimal(&mut chars, index as u128);
        Err(string_from_chars(&chars))
    }
}

/// What the runtime does after a present.
#[derive(Debug, Clone, Copy, PartialEq, Eq, Structural)]
pub enum BenchmarkStep {
    /// Append this operation and present again.
    Next(BenchmarkOperation),
    /// Every operation was measured: write the report.
    Complete,
}

/// The scenario's progress: operations queued, operations measured, and
/// whether a queued operation waits for its present.
#[derive(Debug)]
pub struct BenchmarkProgress {
    queued_operations: usize,
    measured_operations: usize,
    awaiting_present: bool,
    frame_durations: Vec<u64>,
    input_latencies: Vec<u64>,
}

impl BenchmarkProgress {
    /// Operations queued so far.
    pub closed spec fn queued(&self) -> usize {
        self.queued_operations
    }

    /// Operations whose present was measured.
    pub closed spec fn measured(&self) -> usize {
        self.measured_operations
    }

    /// Whether a queued operation waits for its present.
    pub closed spec fn awaiting(&self) -> bool {
        self.awaiting_present
    }

    /// The measured frame times.
    pub closed spec fn frames(&self) -> Seq<u64> {
        self.frame_durations@
    }

    /// The measured input-to-display latencies.
    pub closed spec fn latencies(&self) -> Seq<u64> {
        self.input_latencies@
    }

    /// The pacing invariant: one measurement per queued operation, all within
    /// the scenario.
    pub closed spec fn wf(&self) -> bool {
        &&& self.measured_operations + (if self.awaiting_present {
            1int
        } else {
            0
        }) == self.queued_operations
        &&& self.queued_operations <= TOTAL_OPERATION_COUNT
        &&& self.frame_durations@.len() == self.measured_operations
        &&& self.input_latencies@.len() == self.measured_operations
    }

    /// A scenario that has done nothing yet.
    pub fn new() -> (progress: BenchmarkProgress)
        ensures
            progress.wf(),
            progress.queued() == 0,
            progress.measured() == 0,
            !progress.awaiting(),
            progress.frames() == Seq::<u64>::empty(),
            progress.latencies() == Seq::<u64>::empty(),
    {
        BenchmarkProgress {
            queued_operations: 0,
            measured_operations: 0,
            awaiting_present: false,
            frame_durations: Vec::new(),
            input_latencies: Vec::new(),
        }
    }

    /// Consumes the sample of the frame that was just presented, then says
    /// what comes next: the next operation, or the report once all are
    /// measured. A waited-for frame must come with a sample and a latency.
    pub fn after_present(&mut self, frame_sample: Option<FrameSample>) -> (res: Result<
        BenchmarkStep,
        String,
    >)
        requires
            old(self).wf(),
        ensures
            final(self).wf(),
            old(self).awaiting() && frame_sample is None ==> (res matches Err(message) && message@
                == "GPU 压力场景未收到已启用的帧性能样本"@),
            old(self).awaiting() && (frame_sample matches Some(s) && s.input_to_display is None)
                ==> (res matches Err(message) && message@ == "GPU 压力场景帧缺少输入到显示延迟样本"@),
            res is Ok ==> {
                let measured = if old(self).awaiting() {
                    old(self).measured() + 1
                } else {
                    old(self).measured() as int
                };
                &&& old(self).awaiting() ==> (frame_sample matches Some(s) && (s.input_to_display matches Some(l)
                    && final(self).frames() == old(self).frames().push(s.frame_duration)
                    && final(self).latencies() == old(self).latencies().push(l)))
                &&& measured == TOTAL_OPERATION_COUNT ==> res == Ok::<BenchmarkStep, String>(
                    BenchmarkStep::Complete,
                ) && final(self).measured() == measured && !final(self).awaiting()
                &&& measured < TOTAL_OPERATION_COUNT ==> res == Ok::<BenchmarkStep, String>(
                    BenchmarkStep::Next(operation_at(measured).unwrap()),
                ) && final(self).measured() == measured && final(self).awaiting()
                    && final(self).queued() == measured + 1
            },
            !old(self).awaiting() ==> res is Ok,
            old(self).awaiting() && (frame_sample matches Some(s) && s.input_to_display is Some)
                ==> res is Ok,
    {
        if self.awaiting_present {
            let sample = match frame_sample {
                Some(sample) => sample,
                None => {
                    let mut chars: Vec<char> = Vec::new();
                    push_str(&mut chars, "GPU 压力场景未收到已启用的帧性能样本");
                    assert(chars@ =~= "GPU 压力场景未收到已启用的帧性能样本"@);
                    return Err(string_from_chars(&chars));
                },
            };
            self.frame_durations.push(sample.frame_duration);
            let input_latency = match sample.input_to_display {
                Some(latency) => latency,
                None => {
                    self.frame_durations.pop();
                    let mut chars: Vec<char> = Vec::new();
                    push_str(&mut chars, "GPU 压力场景帧缺少输入到显示延迟样本");
                    assert(chars@ =~= "GPU 压力场景帧缺少输入到显示延迟样本"@);
                    return Err(string_from_chars(&chars));
                },
            };
            self.input_latencies.push(input_latency);
            self.measured_operations = self.measured_operations + 1;
            self.awaiting_present = false;
        }
        if self.measured_operations == TOTAL_OPERATION_COUNT {
            return Ok(BenchmarkStep::Complete);
        }
        let operation = match benchmark_operation(self.queued_operations) {
            Ok(operation) => operation,
            Err(message) => return Err(message),
        };
        self.queued_operations = self.queued_operations + 1;
        self.awaiting_present = true;
        Ok(BenchmarkStep::Next(operation))
    }

    /// The measured frame times, for the report.
    pub fn frame_durations(&self) -> (durations: &Vec<u64>)
        ensures
            durations@ == self.frames(),
    {
        &self.frame_durations
    }

    /// The measured input-to-display latencies, for the report.
    pub fn input_latencies(&self) -> (latencies: &Vec<u64>)
        ensures
            latencies@ == self.latencies(),
    {
        &self.input_latencies
    }

    /// Operations queued so far.
    pub fn queued_operations(&self) -> (count: usize)
        ensures
            count == self.queued(),
    {
        self.queued_operations
    }

    /// Operations measured so far.
    pub fn measured_operations(&self) -> (count: usize)
        ensures
            count == self.measured(),
    {
        self.measured_operations
    }
}

/// Whether the scenario ran to its end: every operation queued, measured and in
/// the document.
pub fn operation_counts_complete(queued: usize, measured: usize, document_operations: usize) -> (complete: bool)
    ensures
        complete == (queued == TOTAL_OPERATION_COUNT && measured == TOTAL_OPERATION_COUNT
            && document_operations == TOTAL_OPERATION_COUNT),
{
    queued == TOTAL_OPERATION_COUNT && measured == TOTAL_OPERATION_COUNT && document_operations
        == TOTAL_OPERATION_COUNT
}

/// Whether one input-to-display latency was measured per operation.
pub fn input_samples_complete(input_samples: usize) -> (complete: bool)
    ensures
        complete == (input_samples == TOTAL_OPERATION_COUNT),
{
    input_samples == TOTAL_OPERATION_COUNT
}

/// Why a finished scenario fails its acceptance.
#[derive(Debug, Clone, Copy, PartialEq, Eq, Structural)]
pub enum BenchmarkFailure {
    /// The adapter is not an Intel one.
    NotIntelAdapter,
    /// The software rasterizer stood in for the GPU.
    SoftwareFallback,
    /// Not every operation was queued, measured and kept in the document.
    OperationCountMismatch { queued: usize, measured: usize, document: usize },
    /// Not one latency sample per operation.
    InputSampleCountMismatch(usize),
    /// The 95th-percentile input-to-display latency, in nanoseconds, is over the limit.
    InputP95TooSlow(u64),
    /// No input-to-display latency was measured.
    MissingInputP95,
}

/// The failures of a finished scenario, in the order the report lists them.
pub open spec fn spec_benchmark_failures(
    vendor: Seq<char>,
    software_fallback: bool,
    queued: usize,
    measured: usize,
    document_operations: usize,
    input_samples: usize,
    input_p95_nanos: Option<u64>,
) -> Seq<BenchmarkFailure> {
    let adapter = if contains_text(vendor, INTEL_VENDOR_ID@) {
        Seq::empty()
    } else {
        seq![BenchmarkFailure::NotIntelAdapter]
    };
    let fallback = if software_fallback {
        seq![BenchmarkFailure::SoftwareFallback]
    } else {
        Seq::empty()
    };
    let counts = if queued == TOTAL_OPERATION_COUNT && measured == TOTAL_OPERATION_COUNT
        && document_operations == TOTAL_OPERATION_COUNT {
        Seq::empty()
    } else {
        seq![BenchmarkFailure::OperationCountMismatch { queued, measured, document: document_operations }]
    };
    let samples = if input_samples == TOTAL_OPERATION_COUNT {
        Seq::empty()
    } else {
        seq![BenchmarkFailure::InputSampleCountMismatch(input_samples)]
    };
    let latency = match input_p95_nanos {
        Some(nanos) => if nanos <= INPUT_P95_LIMIT_NANOS {
            Seq::empty()
        } else {
            seq![BenchmarkFailure::InputP95TooSlow(nanos)]
        },
        None => seq![BenchmarkFailure::MissingInputP95],
    };
    adapter + fallback + counts + samples + latency
}

/// The verdict of a finished scenario: it passes when the list is empty.
pub fn benchmark_failures(
    vendor: &str,
    software_fallback: bool,
    queued: usize,
    measured: usize,
    document_operations: usize,
    input_samples: usize,
    input_p95_nanos: Option<u64>,
) -> (failures: Vec<BenchmarkFailure>)
    ensures
        failures@ == spec_benchmark_failures(
            vendor@,
            software_fallback,
            queued,
            measured,
            document_operations,
            input_samples,
            input_p95_nanos,
        ),
{
    let mut failures: Vec<BenchmarkFailure> = Vec::new();
    if !contains_str(vendor, INTEL_VENDOR_ID) {
        failures.push(BenchmarkFailure::NotIntelAdapter);
    }
    if software_fallback {
        failures.push(BenchmarkFailure::SoftwareFallback);
    }
    if !operation_counts_complete(queued, measured, document_operations) {
        failures.push(
            BenchmarkFailure::OperationCountMismatch { queued, measured, document: document_operations },
        );
    }
    if !input_samples_complete(input_samples) {
        failures.push(BenchmarkFailure::InputSampleCountMismatch(input_samples));
    }
    match input_p95_nanos {
        Some(nanos) => if nanos > INPUT_P95_LIMIT_NANOS {
            failures.push(BenchmarkFailure::InputP95TooSlow(nanos));
        },
        None => failures.push(BenchmarkFailure::MissingInputP95),
    }
    assert(failures@ =~= spec_benchmark_failures(
        vendor@,
        software_fallback,
        queued,
        measured,
        document_operations,
        input_samples,
        input_p95_nanos,
    ));
    failures
}

/// Driving the scenario from its start, every operation is queued once, in
/// order: the pen strokes first, then the erase strokes.
pub proof fn lemma_operations_in_order(index: int)
    requires
        0 <= index < TOTAL_OPERATION_COUNT,
    ensures
        operation_at(index) is Some,
        index < DRAW_OPERATION_COUNT ==> operation_at(index) == Some(BenchmarkOperation::Draw(index as usize)),
        index >= DRAW_OPERATION_COUNT ==> operation_at(index) == Some(
            BenchmarkOperation::Erase((index - DRAW_OPERATION_COUNT) as usize),
        ),
{
}

} // verus!
