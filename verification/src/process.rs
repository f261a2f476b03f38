//! Recognising Riot Vanguard among the running processes and the `vgk`
//! kernel service, and summarising what was found.
use vstd::prelude::*;
use crate::text::{
    chars_eq_ignore_ascii_case, clean_wide_text, clean_wide_units, decimal_text, encode_utf16,
    digits_value, eq_ignore_ascii_case, has_no_nul, lemma_decimal_text_denotes, is_unicode_whitespace,
    lemma_clean_name_from_terminated_buffer, push_decimal, string_of,
};

verus! {

/// The `dwCurrentState` value of a stopped service (`SERVICE_STOPPED`).
pub const SERVICE_STOPPED_STATE: u32 = 1;

/// The `dwCurrentState` value of a running service (`SERVICE_RUNNING`).
pub const SERVICE_RUNNING_STATE: u32 = 4;

/// What the launcher makes of the state of the `vgk` service.
#[derive(Debug, Clone, Copy, PartialEq, Eq, Structural)]
pub enum ServiceState {
    Stopped,
    Running,
}

/// One entry of the process list: the process id and the executable name as
/// the fixed-size wide-character buffer that the process snapshot fills.
pub struct ProcessEntry {
    pub pid: u32,
    pub exe_file: Vec<u16>,
}

impl View for ProcessEntry {
    type V = (u32, Seq<u16>);

    open spec fn view(&self) -> (u32, Seq<u16>) {
        (self.pid, self.exe_file@)
    }
}

pub open spec fn vgc_name() -> Seq<char> {
    seq!['v', 'g', 'c', '.', 'e', 'x', 'e']
}

pub open spec fn vgtray_name() -> Seq<char> {
    seq!['v', 'g', 't', 'r', 'a', 'y', '.', 'e', 'x', 'e']
}

/// A cleaned executable name belongs to Vanguard when it is `vgc.exe` or
/// `vgtray.exe`, ASCII letters compared without regard to case.
pub open spec fn is_vanguard_name(name: Seq<char>) -> bool {
    eq_ignore_ascii_case(name, vgc_name()) || eq_ignore_ascii_case(name, vgtray_name())
}

/// The Vanguard processes among `entries`, in order, each with its cleaned name.
pub open spec fn vanguard_processes(entries: Seq<(u32, Seq<u16>)>) -> Seq<(u32, Seq<char>)>
    decreases entries.len(),
{
    if entries.len() == 0 {
        Seq::empty()
    } else {
        let rest = vanguard_processes(entries.drop_last());
        let e = entries.last();
        if is_vanguard_name(clean_wide_text(e.1)) {
            rest.push((e.0, clean_wide_text(e.1)))
        } else {
            rest
        }
    }
}

pub open spec fn found_view(found: Seq<(u32, String)>) -> Seq<(u32, Seq<char>)> {
    found.map_values(|p: (u32, String)| (p.0, p.1@))
}

/// Whether the cleaned name of a wide-character buffer is a Vanguard executable.
fn is_vanguard_chars(name: &Vec<char>) -> (r: bool)
    ensures
        r == is_vanguard_name(name@),
{
    proof {
        reveal_strlit("vgc.exe");
        reveal_strlit("vgtray.exe");
        assert("vgc.exe"@ =~= vgc_name());
        assert("vgtray.exe"@ =~= vgtray_name());
    }
    chars_eq_ignore_ascii_case(name, "vgc.exe") || chars_eq_ignore_ascii_case(name, "vgtray.exe")
}

/// The name in a zero-terminated wide-character buffer: the units before
/// the first zero unit, decoded (unpaired surrogates replaced), then
/// trailing whitespace dropped.
pub fn clean_exe_name(exe_file: &[u16]) -> (name: Vec<char>)
    ensures
        name@ == clean_wide_text(exe_file@),
{
    clean_wide_units(exe_file)
}

/// Whether the executable name of a process entry is `vgc.exe` or
/// `vgtray.exe`, without regard to ASCII case.
pub fn is_vanguard_process(exe_file: &[u16]) -> (r: bool)
    ensures
        r == is_vanguard_name(clean_wide_text(exe_file@)),
{
    let name = clean_exe_name(exe_file);
    is_vanguard_chars(&name)
}

/// A process whose name buffer holds `name`, a zero unit and then anything
/// at all (zeros, or what an earlier, longer name left behind) counts as
/// Vanguard exactly when `name` is `vgc.exe` or `vgtray.exe` in any mix of
/// ASCII case (for names without NUL that do not end in whitespace).
pub proof fn lemma_buffered_name_recognised(name: Seq<char>, rest: Seq<u16>)
    requires
        has_no_nul(name),
        name.len() == 0 || !is_unicode_whitespace(name.last()),
    ensures
        is_vanguard_name(clean_wide_text(encode_utf16(name).push(0u16) + rest)) == is_vanguard_name(name),
{
    lemma_clean_name_from_terminated_buffer(name, rest);
}

/// The Vanguard processes among the entries of a process snapshot, in
/// snapshot order, each with its id and cleaned name.
pub fn collect_vanguard_processes(entries: &Vec<ProcessEntry>) -> (found: Vec<(u32, String)>)
    ensures
        found_view(found@) == vanguard_processes(entries@.map_values(|e: ProcessEntry| e@)),
{
    let ghost views = entries@.map_values(|e: ProcessEntry| e@);
    let n = entries.len();
    let mut found: Vec<(u32, String)> = Vec::new();
    let mut i: usize = 0;
    assert(views.take(0) =~= Seq::<(u32, Seq<u16>)>::empty());
    assert(found_view(found@) =~= Seq::<(u32, Seq<char>)>::empty());
    while i < n
        invariant
            n == entries@.len(),
            views == entries@.map_values(|e: ProcessEntry| e@),
            i <= n,
            found_view(found@) == vanguard_processes(views.take(i as int)),
        decreases n - i,
    {
        let entry = &entries[i];
        let name = clean_exe_name(entry.exe_file.as_slice());
        let is_vg = is_vanguard_chars(&name);
        proof {
            assert(views.take(i + 1).drop_last() =~= views.take(i as int));
            assert(views.take(i + 1).last() == views[i as int]);
            assert(views[i as int] == entries@[i as int]@);
        }
        if is_vg {
            let s = string_of(&name);
            let ghost before = found@;
            found.push((entry.pid, s));
            assert(found_view(found@) =~= found_view(before).push((entry.pid, name@)));
        }
        i = i + 1;
    }
    assert(views.take(n as int) =~= views);
    found
}

/// The `dwCurrentState` of the `vgk` service read as the launcher reads it:
/// stopped only when it is exactly `SERVICE_STOPPED`; running, starting,
/// stopping, paused and every other state count as running.
pub fn classify_service_state(state: u32) -> (r: ServiceState)
    ensures
        r == (if state == SERVICE_STOPPED_STATE {
            ServiceState::Stopped
        } else {
            ServiceState::Running
        }),
{
    if state == SERVICE_RUNNING_STATE {
        ServiceState::Running
    } else if state == SERVICE_STOPPED_STATE {
        ServiceState::Stopped
    } else {
        ServiceState::Running
    }
}

/// Vanguard counts as present when one of its processes runs or the `vgk`
/// service was found running.
pub open spec fn vanguard_present(process_count: nat, vgk: Option<ServiceState>) -> bool {
    process_count > 0 || vgk == Some(ServiceState::Running)
}

/// Whether Vanguard is present: a Vanguard process was found, or the `vgk`
/// service is running.
pub fn vanguard_detected(procs: &[(u32, String)], vgk: Option<ServiceState>) -> (r: bool)
    ensures
        r == vanguard_present(procs@.len(), vgk),
{
    let running = match vgk {
        Some(ServiceState::Running) => true,
        _ => false,
    };
    procs.len() > 0 || running
}

/// The summary line of one Vanguard process.
pub open spec fn process_line(pid: u32, name: Seq<char>) -> Seq<char> {
    "  Process: "@ + name + " (PID "@ + decimal_text(pid as nat) + ")"@
}

/// The summary line of a running `vgk` driver.
pub open spec fn kernel_driver_line() -> Seq<char> {
    "  Kernel driver: vgk (active)"@
}

/// The summary lines: one per process, in order, then the driver line when
/// `vgk` is running.
pub open spec fn summary_lines(procs: Seq<(u32, Seq<char>)>, vgk: Option<ServiceState>) -> Seq<Seq<char>> {
    procs.map_values(|p: (u32, Seq<char>)| process_line(p.0, p.1)) + if vgk == Some(
        ServiceState::Running,
    ) {
        seq![kernel_driver_line()]
    } else {
        Seq::empty()
    }
}

/// The lines that describe what was found of Vanguard.
pub fn build_summary(procs: &[(u32, String)], vgk: Option<ServiceState>) -> (lines: Vec<String>)
    ensures
        lines@.map_values(|l: String| l@) == summary_lines(found_view(procs@), vgk),
{
    let n = procs.len();
    let mut lines: Vec<String> = Vec::new();
    let mut i: usize = 0;
    while i < n
        invariant
            n == procs@.len(),
            i <= n,
            lines@.len() == i,
            forall|j: int|
                0 <= j < i ==> #[trigger] lines@[j]@ == process_line(procs@[j].0, procs@[j].1@),
        decreases n - i,
    {
        let mut line = String::from_str("  Process: ");
        line.append(procs[i].1.as_str());
        line.append(" (PID ");
        push_decimal(&mut line, procs[i].0);
        line.append(")");
        lines.push(line);
        i = i + 1;
    }
    if let Some(ServiceState::Running) = vgk {
        lines.push(String::from_str("  Kernel driver: vgk (active)"));
    }
    assert(lines@.map_values(|l: String| l@) =~= summary_lines(found_view(procs@), vgk));
    lines
}


/// The summary has one line per process, in order, each naming the process
/// and its full PID in decimal, and then the driver line exactly when `vgk`
/// is running.
pub proof fn lemma_summary_lines_describe_processes(procs: Seq<(u32, Seq<char>)>, vgk: Option<ServiceState>)
    ensures
        summary_lines(procs, vgk).len() == procs.len() + if vgk == Some(ServiceState::Running) {
            1int
        } else {
            0int
        },
        forall|j: int|
            0 <= j < procs.len() ==> #[trigger] summary_lines(procs, vgk)[j] == "  Process: "@
                + procs[j].1 + " (PID "@ + decimal_text(procs[j].0 as nat) + ")"@,
        vgk == Some(ServiceState::Running) ==> summary_lines(procs, vgk)[procs.len() as int]
            == "  Kernel driver: vgk (active)"@,
{
}

/// A one-process summary without a running driver is the single line that
/// names the process and its PID, whatever the PID.
pub proof fn lemma_single_process_summary(pid: u32, name: Seq<char>)
    ensures
        summary_lines(seq![(pid, name)], None) == seq![
            "  Process: "@ + name + " (PID "@ + decimal_text(pid as nat) + ")"@,
        ],
        digits_value(decimal_text(pid as nat)) == pid,
{
    assert(summary_lines(seq![(pid, name)], None) =~= seq![
        "  Process: "@ + name + " (PID "@ + decimal_text(pid as nat) + ")"@,
    ]);
    lemma_decimal_text_denotes(pid as nat);
}

/// The service states as the service manager numbers them: stopped is 1,
/// running is 4.
pub proof fn lemma_service_state_numbers()
    ensures
        SERVICE_STOPPED_STATE == 1,
        SERVICE_RUNNING_STATE == 4,
{
}

/// The executable names that count as Vanguard, letter by letter.
pub proof fn lemma_vanguard_names(name: Seq<char>)
    ensures
        is_vanguard_name(name) <==> (eq_ignore_ascii_case(name, seq!['v', 'g', 'c', '.', 'e', 'x', 'e'])
            || eq_ignore_ascii_case(name, seq!['v', 'g', 't', 'r', 'a', 'y', '.', 'e', 'x', 'e'])),
        vanguard_present(0, None) == false,
        vanguard_present(0, Some(ServiceState::Stopped)) == false,
        forall|n: nat, v: Option<ServiceState>| n > 0 ==> #[trigger] vanguard_present(n, v),
        forall|n: nat| #[trigger] vanguard_present(n, Some(ServiceState::Running)),
{
}


/// Which processes are kept: with every entry a Vanguard process, all are
/// kept in snapshot order with their ids and cleaned names; with none, none;
/// and never more than there are entries.
pub proof fn lemma_vanguard_processes_kept(entries: Seq<(u32, Seq<u16>)>)
    ensures
        vanguard_processes(entries).len() <= entries.len(),
        (forall|i: int| 0 <= i < entries.len() ==> is_vanguard_name(clean_wide_text(#[trigger] entries[i].1)))
            ==> (vanguard_processes(entries).len() == entries.len() && forall|i: int|
            0 <= i < entries.len() ==> #[trigger] vanguard_processes(entries)[i] == (
            entries[i].0,
            clean_wide_text(entries[i].1),
        )),
        (forall|i: int| 0 <= i < entries.len() ==> !is_vanguard_name(clean_wide_text(#[trigger] entries[i].1)))
            ==> vanguard_processes(entries).len() == 0,
    decreases entries.len(),
{
    if entries.len() > 0 {
        let init = entries.drop_last();
        lemma_vanguard_processes_kept(init);
        assert forall|i: int| 0 <= i < init.len() implies init[i] == entries[i] by {}
        if forall|i: int| 0 <= i < entries.len() ==> is_vanguard_name(clean_wide_text(#[trigger] entries[i].1)) {
            assert(is_vanguard_name(clean_wide_text(entries[entries.len() - 1].1)));
            assert(forall|i: int| 0 <= i < init.len() ==> is_vanguard_name(clean_wide_text(#[trigger] init[i].1)));
        }
        if forall|i: int| 0 <= i < entries.len() ==> !is_vanguard_name(clean_wide_text(#[trigger] entries[i].1)) {
            assert(!is_vanguard_name(clean_wide_text(entries[entries.len() - 1].1)));
            assert(forall|i: int| 0 <= i < init.len() ==> !is_vanguard_name(clean_wide_text(#[trigger] init[i].1)));
        }
    }
}

} // verus!
