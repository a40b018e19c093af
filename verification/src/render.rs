//! Frame renderer model: a pure function from a snapshot and a layout plan
//! to the texts and regions one frame draws. The binary around the library
//! only copies these onto the terminal, so everything the frame shows —
//! and above all that cell `i` shows core `i`'s utilization in column `i` —
//! is fixed here.

use vstd::prelude::*;
use vstd::string::StringExecFns;
use crate::clock::Clock;
use crate::clock::TimeOfDay;
use crate::clock::spec_hms;
use crate::layout::LayoutPlan;
use crate::layout::Rect;
use crate::layout::cell_matches;
use crate::layout::partition;
use crate::snapshot::Snapshot;
use crate::snapshot::spec_centi_gib;
use crate::text::centi_string;
use crate::text::decimal_string;
use crate::text::spec_centi;
use crate::text::spec_decimal;

verus! {

/// One bordered CPU cell: the column it occupies, the core's identifier used
/// as its title, and the utilization text shown inside.
pub struct CpuCell {
    pub area: Rect,
    pub label: String,
    pub usage_text: String,
}

/// Everything one frame draws: the header band with the clock line and the
/// memory summary, and one CPU cell per core, in core order.
pub struct FrameModel {
    pub header_area: Rect,
    pub clock_text: String,
    pub summary_text: String,
    pub cells: Vec<CpuCell>,
}

/// The identifier of core `i`: `cpu` followed by the core number.
pub open spec fn spec_core_label(i: nat) -> Seq<char> {
    "cpu"@ + spec_decimal(i)
}

/// The utilization text of a core: its hundredths of a percent written as
/// `X.YZ`. Defined for every reading, including the zero baseline of the
/// very first sample, which shows as `0.00`.
pub open spec fn spec_usage_text(centi_percent: nat) -> Seq<char> {
    spec_centi(centi_percent)
}

/// The memory summary line: host name, then used and total memory in
/// gibibytes to two decimal places.
pub open spec fn spec_summary(s: Snapshot) -> Seq<char> {
    s.host@ + " "@ + spec_centi(spec_centi_gib(s.used_memory as nat)) + "/"@ + spec_centi(
        spec_centi_gib(s.total_memory as nat),
    ) + " GiB"@
}

/// Cell `i` of a frame for snapshot `s` and plan `plan` shows core `i`'s
/// identifier and utilization inside body column `i`.
pub open spec fn cell_shows(s: Snapshot, plan: LayoutPlan, i: int, c: CpuCell) -> bool {
    &&& c.area == plan.cells[i]
    &&& c.label@ == spec_core_label(i as nat)
    &&& c.usage_text@ == spec_usage_text(s.cpus[i] as nat)
}

/// Cell `i` of a frame computed directly for `area` split across `n` cores:
/// its region is body column `i` of the partition, and its texts are core
/// `i`'s identifier and utilization.
pub open spec fn frame_cell_shows(s: Snapshot, area: Rect, n: int, i: int, c: CpuCell) -> bool {
    &&& cell_matches(area, n, i, c.area)
    &&& c.label@ == spec_core_label(i as nat)
    &&& c.usage_text@ == spec_usage_text(s.cpus[i] as nat)
}

/// Builds the CPU cells for one frame: cell `i` pairs body column `i` with
/// core `i`'s utilization, so the left-to-right cell order is exactly the
/// core order of the snapshot.
pub fn render_cells(s: &Snapshot, plan: &LayoutPlan) -> (cells: Vec<CpuCell>)
    requires
        plan.cells.len() == s.cpus.len(),
    ensures
        cells.len() == s.cpus.len(),
        forall|i: int| 0 <= i < cells.len() ==> cell_shows(*s, *plan, i, #[trigger] cells[i]),
{
    let mut cells: Vec<CpuCell> = Vec::new();
    let mut i: usize = 0;
    while i < s.cpus.len()
        invariant
            plan.cells.len() == s.cpus.len(),
            i <= s.cpus.len(),
            cells.len() == i,
            forall|j: int| 0 <= j < i ==> cell_shows(*s, *plan, j, #[trigger] cells[j]),
        decreases s.cpus.len() - i,
    {
        proof {
            reveal_strlit("cpu");
        }
        let mut label = "cpu".to_owned();
        let number = decimal_string(i as u64);
        label.append(number.as_str());
        proof {
            assert(label@ =~= spec_core_label(i as nat));
        }
        let usage_text = centi_string(s.cpus[i] as u64);
        cells.push(CpuCell { area: plan.cells[i], label, usage_text });
        i = i + 1;
    }
    cells
}

/// Writes the memory summary line for a snapshot.
pub fn summary_line(s: &Snapshot) -> (line: String)
    requires
        s.wf(),
    ensures
        line@ == spec_summary(*s),
{
    proof {
        reveal_strlit(" ");
        reveal_strlit("/");
        reveal_strlit(" GiB");
    }
    let (used, total) = s.memory_centi_gib();
    let mut line = s.host.clone();
    line.append(" ");
    let used_text = centi_string(used);
    line.append(used_text.as_str());
    line.append("/");
    let total_text = centi_string(total);
    line.append(total_text.as_str());
    line.append(" GiB");
    proof {
        assert(line@ =~= spec_summary(*s));
    }
    line
}

/// Computes one whole frame: partitions `area` for the snapshot's core
/// count, renders the clock and the memory summary into the header, and one
/// cell per core into the body columns, in core order. Pure: the result is a
/// function of the snapshot, the area and the time alone, and it is defined
/// for every well-formed snapshot — the zero readings of the first sample
/// render as `0.00`, never as an error.
pub fn render_frame(s: &Snapshot, area: Rect, t: TimeOfDay) -> (frame: FrameModel)
    requires
        s.wf(),
        t.wf(),
        1 <= s.cpus.len(),
        1 <= area.width,
        1 <= area.height,
        area.x + area.width <= u16::MAX,
        area.y + area.height <= u16::MAX,
    ensures
        frame.cells.len() == s.cpus.len(),
        frame.clock_text@ == spec_hms(t),
        frame.summary_text@ == spec_summary(*s),
        frame.header_area.x == area.x,
        frame.header_area.y == area.y,
        frame.header_area.width == area.width,
        frame.header_area.height == crate::layout::spec_header_height(area.height as int),
        forall|i: int|
            0 <= i < frame.cells.len() ==> frame_cell_shows(
                *s,
                area,
                s.cpus.len() as int,
                i,
                #[trigger] frame.cells[i],
            ),
{
    let plan = partition(area, s.cpus.len());
    let clock = Clock {};
    let clock_text = clock.render(t);
    let summary_text = summary_line(s);
    let cells = render_cells(s, &plan);
    FrameModel { header_area: plan.header, clock_text, summary_text, cells }
}

} // verus!
