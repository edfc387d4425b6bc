//! Presence detection: whether a tracked application is active on the host.
//!
//! The probes themselves read the process table, ask the host across the
//! compatibility layer, or query the foreground window; they belong to the
//! caller. This module matches what the probes found against the tracked
//! names, builds the match descriptors, and tracks the edges between
//! presence and absence that are worth a log line.

use vstd::prelude::*;
use vstd::string::*;
use crate::text::{
    chars_of, contains, decimal, decimal_of, extend, file_name, file_name_of, has_substring, join,
    joined, lowercase, lowercase_of, rows_of, string_of, strip_trailing, trim, trimmed, views_of,
    without_trailing,
};

verus! {

/// One row of the process table.
#[derive(Debug)]
pub struct ProcessInfo {
    pub name: String,
    pub pid: u32,
    pub exe: Option<String>,
}

/// One poll: whether the tracked condition holds, and what matched.
#[derive(Debug)]
pub struct PresenceSample {
    pub present: bool,
    pub descriptor: Option<String>,
}

/// What a poll is worth in the log.
#[derive(Clone, Copy, Debug, PartialEq, Eq, Structural)]
pub enum PresenceEdge {
    /// Nothing changed.
    Steady,
    /// Absence turned into presence.
    Detected,
    /// Presence turned into absence.
    Lost,
    /// Presence holds, but something else matches now.
    Switched,
}

/// Some name of `targets` stands in `text`.
pub open spec fn any_target_in(targets: Seq<Seq<char>>, text: Seq<char>) -> bool {
    exists|t: int| 0 <= t < targets.len() && contains(text, #[trigger] targets[t])
}

/// The descriptor of a process that matched by name.
pub open spec fn name_descriptor(name: Seq<char>, pid: u32) -> Seq<char> {
    "linux:"@ + name + " (pid="@ + decimal_of(pid as nat) + ")"@
}

/// The descriptor of a process that matched by the path of its executable.
pub open spec fn exe_descriptor(name: Seq<char>, pid: u32, exe: Seq<char>) -> Seq<char> {
    "linux:"@ + name + " (pid="@ + decimal_of(pid as nat) + ", exe="@ + exe + ")"@
}

/// A process of the table as contracts see it.
pub struct ProcessView {
    pub name: Seq<char>,
    pub pid: u32,
    pub exe: Option<Seq<char>>,
}

impl View for ProcessInfo {
    type V = ProcessView;

    open spec fn view(&self) -> ProcessView {
        ProcessView {
            name: self.name@,
            pid: self.pid,
            exe: match self.exe {
                Some(e) => Some(e@),
                None => None,
            },
        }
    }
}

/// The descriptor under which `process` matches `targets`, if it does: by
/// its name in lower case first, else by the path of its executable in
/// lower case.
pub open spec fn process_match(targets: Seq<Seq<char>>, process: ProcessView) -> Option<
    Seq<char>,
> {
    if any_target_in(targets, lowercase_of(process.name)) {
        Some(name_descriptor(process.name, process.pid))
    } else {
        match process.exe {
            Some(exe) => if any_target_in(targets, lowercase_of(exe)) {
                Some(exe_descriptor(process.name, process.pid, exe))
            } else {
                None
            },
            None => None,
        }
    }
}

/// The processes of `table` as contracts see them.
pub open spec fn table_of(table: Seq<ProcessInfo>) -> Seq<ProcessView> {
    table.map_values(|p: ProcessInfo| p@)
}

/// The descriptor of the first process at or after `i` that matches.
pub open spec fn first_process_match(
    targets: Seq<Seq<char>>,
    table: Seq<ProcessView>,
    i: int,
) -> Option<Seq<char>>
    decreases table.len() - i,
{
    if i < 0 || i >= table.len() {
        None
    } else {
        match process_match(targets, table[i]) {
            Some(d) => Some(d),
            None => first_process_match(targets, table, i + 1),
        }
    }
}

/// The process name that the host knows `target` by: its last path
/// component, trimmed, without `.exe` at its end.
pub open spec fn windows_name_of(target: Seq<char>) -> Seq<char> {
    without_trailing(trimmed(file_name_of(target)), ".exe"@)
}

/// `a` comes before `b` in the order of the dictionary, character by
/// character from index `i` on.
pub open spec fn comes_before(a: Seq<char>, b: Seq<char>, i: int) -> bool
    decreases a.len() - i,
{
    if i < 0 || i >= b.len() {
        false
    } else if i >= a.len() {
        true
    } else if a[i] != b[i] {
        (a[i] as u32) < (b[i] as u32)
    } else {
        comes_before(a, b, i + 1)
    }
}

/// The index at which `name` goes into `sorted`: behind every name at or
/// after `i` that comes before it.
pub open spec fn place_for(sorted: Seq<Seq<char>>, name: Seq<char>, i: int) -> int
    decreases sorted.len() - i,
{
    if 0 <= i < sorted.len() && comes_before(sorted[i], name, 0) {
        place_for(sorted, name, i + 1)
    } else {
        i
    }
}

/// The host names of the first `n` targets, each once, in the order of the
/// dictionary; a target whose host name is empty gives none.
pub open spec fn windows_names(targets: Seq<Seq<char>>, n: nat) -> Seq<Seq<char>>
    decreases n,
{
    if n == 0 {
        Seq::empty()
    } else {
        let before = windows_names(targets, (n - 1) as nat);
        let name = windows_name_of(targets[n - 1]);
        let place = place_for(before, name, 0);
        if name.len() == 0 || !(0 <= place <= before.len()) {
            before
        } else if place < before.len() && before[place] == name {
            before
        } else {
            before.insert(place, name)
        }
    }
}

/// `a` and `b` hold the same characters before index `i`.
pub open spec fn agree_before(a: Seq<char>, b: Seq<char>, i: int) -> bool {
    i <= a.len() && i <= b.len() && forall|k: int| 0 <= k < i ==> a[k] == b[k]
}

/// Every name of `names` comes before each name behind it: the names stand
/// in the order of the dictionary and none stands twice.
pub open spec fn in_dictionary_order(names: Seq<Seq<char>>) -> bool {
    forall|x: int, y: int| 0 <= x < y < names.len() ==> comes_before(names[x], names[y], 0)
}

/// The order of the dictionary is transitive.
pub proof fn lemma_comes_before_transitive(a: Seq<char>, b: Seq<char>, c: Seq<char>, i: int)
    requires
        0 <= i,
        comes_before(a, b, i),
        comes_before(b, c, i),
    ensures
        comes_before(a, c, i),
    decreases a.len() - i,
{
    if i < a.len() && a[i] == b[i] && b[i] == c[i] {
        lemma_comes_before_transitive(a, b, c, i + 1);
    }
}

/// No name comes before itself.
pub proof fn lemma_comes_before_irreflexive(a: Seq<char>, i: int)
    requires
        0 <= i,
    ensures
        !comes_before(a, a, i),
    decreases a.len() - i,
{
    if i < a.len() {
        lemma_comes_before_irreflexive(a, i + 1);
    }
}

/// Of two names that differ, one comes before the other.
pub proof fn lemma_comes_before_total(a: Seq<char>, b: Seq<char>, i: int)
    requires
        0 <= i,
        agree_before(a, b, i),
        a != b,
    ensures
        comes_before(a, b, i) || comes_before(b, a, i),
    decreases a.len() - i,
{
    if i >= a.len() && i >= b.len() {
        assert(a =~= b);
    } else if i < a.len() && i < b.len() && a[i] == b[i] {
        lemma_comes_before_total(a, b, i + 1);
    } else if i < a.len() && i < b.len() {
        let x: char = a[i];
        let y: char = b[i];
        vstd::utf8::char_u32_cast(x, x as u32);
        vstd::utf8::char_u32_cast(y, y as u32);
        assert(x as u32 != y as u32);
    }
}

/// Where a name goes: every name before the place comes before it, and the
/// name at the place, if there is one, does not.
pub proof fn lemma_place_bounds(sorted: Seq<Seq<char>>, name: Seq<char>, i: int)
    requires
        0 <= i <= sorted.len(),
    ensures
        i <= place_for(sorted, name, i) <= sorted.len(),
        forall|k: int| i <= k < place_for(sorted, name, i) ==> comes_before(sorted[k], name, 0),
        place_for(sorted, name, i) < sorted.len() ==> !comes_before(
            sorted[place_for(sorted, name, i)],
            name,
            0,
        ),
    decreases sorted.len() - i,
{
    if i < sorted.len() && comes_before(sorted[i], name, 0) {
        lemma_place_bounds(sorted, name, i + 1);
    }
}

/// The host names stand in the order of the dictionary, none stands twice
/// and none is empty: what a sorted set of names would hold.
pub proof fn lemma_windows_names_ordered(targets: Seq<Seq<char>>, n: nat)
    requires
        n <= targets.len(),
    ensures
        in_dictionary_order(windows_names(targets, n)),
        forall|x: int|
            0 <= x < windows_names(targets, n).len() ==> (#[trigger] windows_names(
                targets,
                n,
            )[x]).len() > 0,
        forall|x: int, y: int|
            0 <= x < y < windows_names(targets, n).len() ==> windows_names(targets, n)[x]
                != windows_names(targets, n)[y],
    decreases n,
{
    if n > 0 {
        lemma_windows_names_ordered(targets, (n - 1) as nat);
        let before = windows_names(targets, (n - 1) as nat);
        let name = windows_name_of(targets[n - 1]);
        let place = place_for(before, name, 0);
        lemma_place_bounds(before, name, 0);
        let after = windows_names(targets, n);
        if name.len() > 0 && !(place < before.len() && before[place] == name) {
            assert(after == before.insert(place, name));
            if place < before.len() {
                lemma_comes_before_total(name, before[place], 0);
            }
            assert forall|x: int, y: int| 0 <= x < y < after.len() implies comes_before(
                after[x],
                after[y],
                0,
            ) by {
                let a = if x < place {
                    x
                } else {
                    x - 1
                };
                let b = if y < place {
                    y
                } else {
                    y - 1
                };
                if x != place && y != place {
                    assert(after[x] == before[a] && after[y] == before[b]);
                } else if x == place {
                    assert(after[y] == before[b]);
                    assert(comes_before(name, before[place], 0));
                    if b > place {
                        assert(comes_before(before[place], before[b], 0));
                        lemma_comes_before_transitive(name, before[place], before[b], 0);
                    }
                } else {
                    assert(after[x] == before[a]);
                }
            }
        }
        assert forall|x: int, y: int| 0 <= x < y < after.len() implies after[x] != after[y] by {
            lemma_comes_before_irreflexive(after[x], 0);
        }
    }
}

/// The command that asks the host which of `names` run.
pub open spec fn host_query(names: Seq<Seq<char>>) -> Seq<char> {
    "Get-Process -Name "@ + joined(names, seq![','])
        + " -ErrorAction SilentlyContinue | Select-Object -ExpandProperty ProcessName"@
}

/// Where the search for the first line of `s` that holds more than white
/// space stands after `n` characters.
pub struct LineScan {
    /// The first such line, once one has ended.
    pub found: Option<Seq<char>>,
    /// The line that is being read.
    pub line: Seq<char>,
}

/// The search for the first line that holds more than white space, after the
/// first `n` characters of `s`. Lines end at a line feed.
pub open spec fn scan_lines(s: Seq<char>, n: nat) -> LineScan
    decreases n,
{
    if n == 0 {
        LineScan { found: None, line: Seq::empty() }
    } else {
        let before = scan_lines(s, (n - 1) as nat);
        if before.found is Some {
            before
        } else if s[n - 1] != '\n' {
            LineScan { found: None, line: before.line.push(s[n - 1]) }
        } else if trimmed(before.line).len() > 0 {
            LineScan { found: Some(trimmed(before.line)), line: Seq::empty() }
        } else {
            LineScan { found: None, line: Seq::empty() }
        }
    }
}

/// The first line of `s` that holds more than white space, trimmed.
pub open spec fn first_filled_line(s: Seq<char>) -> Option<Seq<char>> {
    let scan = scan_lines(s, s.len());
    if scan.found is Some {
        scan.found
    } else if trimmed(scan.line).len() > 0 {
        Some(trimmed(scan.line))
    } else {
        None
    }
}

/// The descriptor for what the host answered: `windows:` and the first
/// process name of the answer.
pub open spec fn host_match(stdout: Seq<char>) -> Option<Seq<char>> {
    match first_filled_line(stdout) {
        Some(name) => Some("windows:"@ + name),
        None => None,
    }
}

/// The descriptor for the executable of the foreground window, if its file
/// name in lower case holds one of `targets`.
pub open spec fn foreground_match(targets: Seq<Seq<char>>, exe_path: Seq<char>) -> Option<
    Seq<char>,
> {
    let name = lowercase_of(file_name_of(exe_path));
    if any_target_in(targets, name) {
        Some("windows-native:"@ + name)
    } else {
        None
    }
}

/// The first result of `probes` that found something, at or after `i`.
pub open spec fn first_found(probes: Seq<Option<Seq<char>>>, i: int) -> Option<Seq<char>>
    decreases probes.len() - i,
{
    if i < 0 || i >= probes.len() {
        None
    } else if probes[i] is Some {
        probes[i]
    } else {
        first_found(probes, i + 1)
    }
}

/// What the tracker remembers between two polls.
pub struct Seen {
    pub last_status: bool,
    pub last_match: Option<Seq<char>>,
}

/// The edge that a poll with the result `found` makes after `before`.
pub open spec fn edge_of(before: Seen, found: Option<Seq<char>>) -> PresenceEdge {
    if (found is Some) != before.last_status {
        if found is Some {
            PresenceEdge::Detected
        } else {
            PresenceEdge::Lost
        }
    } else if found is Some && before.last_match != found {
        PresenceEdge::Switched
    } else {
        PresenceEdge::Steady
    }
}

/// What the tracker remembers after a poll with the result `found`.
pub open spec fn seen_after(before: Seen, found: Option<Seq<char>>) -> Seen {
    Seen { last_status: found is Some, last_match: found }
}

/// The view of an optional string.
pub open spec fn opt_view(s: Option<String>) -> Option<Seq<char>> {
    match s {
        Some(t) => Some(t@),
        None => None,
    }
}

/// The views of optional strings.
pub open spec fn opt_views(items: Seq<Option<String>>) -> Seq<Option<Seq<char>>> {
    items.map_values(|s: Option<String>| opt_view(s))
}

/// Whether `a` comes before `b` in the order of the dictionary.
pub fn is_before(a: &Vec<char>, b: &Vec<char>) -> (r: bool)
    ensures
        r == comes_before(a@, b@, 0),
{
    let mut i: usize = 0;
    while i < a.len() && i < b.len() && a[i] == b[i]
        invariant
            i <= a.len(),
            i <= b.len(),
            comes_before(a@, b@, 0) == comes_before(a@, b@, i as int),
        decreases a.len() - i,
    {
        i += 1;
    }
    if i >= b.len() {
        false
    } else if i >= a.len() {
        true
    } else {
        (a[i] as u32) < (b[i] as u32)
    }
}

/// Watches for the tracked applications.
#[derive(Debug)]
pub struct ProcessMonitor {
    targets: Vec<String>,
    last_status: bool,
    last_match: Option<String>,
}

impl ProcessMonitor {
    /// The tracked names, in lower case.
    pub closed spec fn targets(&self) -> Seq<Seq<char>> {
        views_of(self.targets@)
    }

    /// What the monitor remembers of the last poll.
    pub closed spec fn seen(&self) -> Seen {
        Seen { last_status: self.last_status, last_match: opt_view(self.last_match) }
    }

    /// A monitor for `targets`, which are matched in lower case. Nothing has
    /// been seen yet.
    pub fn new(targets: Vec<String>) -> (m: ProcessMonitor)
        ensures
            m.targets() == views_of(targets@).map_values(|t: Seq<char>| lowercase_of(t)),
            m.seen() == (Seen { last_status: false, last_match: None }),
    {
        let mut lowered: Vec<String> = Vec::new();
        let mut i: usize = 0;
        while i < targets.len()
            invariant
                i <= targets.len(),
                views_of(lowered@) == views_of(targets@).map_values(
                    |t: Seq<char>| lowercase_of(t),
                ).take(i as int),
            decreases targets.len() - i,
        {
            let ghost before = lowered@;
            let low = lowercase(targets[i].as_str());
            lowered.push(low);
            assert(views_of(lowered@) =~= views_of(before).push(low@));
            assert(views_of(lowered@) =~= views_of(targets@).map_values(
                |t: Seq<char>| lowercase_of(t),
            ).take(i + 1));
            i += 1;
        }
        assert(views_of(targets@).map_values(|t: Seq<char>| lowercase_of(t)).take(
            targets@.len() as int,
        ) =~= views_of(targets@).map_values(|t: Seq<char>| lowercase_of(t)));
        ProcessMonitor { targets: lowered, last_status: false, last_match: None }
    }

    /// Whether one of the tracked names stands in `text`.
    pub fn matches(&self, text: &str) -> (b: bool)
        ensures
            b == any_target_in(self.targets(), text@),
    {
        let hay = chars_of(text);
        let mut t: usize = 0;
        while t < self.targets.len()
            invariant
                t <= self.targets.len(),
                hay@ == text@,
                forall|k: int| 0 <= k < t ==> !contains(text@, #[trigger] self.targets()[k]),
            decreases self.targets.len() - t,
        {
            let needle = chars_of(self.targets[t].as_str());
            assert(self.targets()[t as int] == needle@);
            if has_substring(&hay, &needle) {
                return true;
            }
            t += 1;
        }
        false
    }

    /// Matches one process against the tracked names.
    pub fn check_process(&self, process: &ProcessInfo) -> (out: Option<String>)
        ensures
            opt_view(out) == process_match(self.targets(), process@),
    {
        let low = lowercase(process.name.as_str());
        if self.matches(low.as_str()) {
            let mut d = chars_of("linux:");
            extend(&mut d, &chars_of(process.name.as_str()));
            extend(&mut d, &chars_of(" (pid="));
            extend(&mut d, &decimal(process.pid as u64));
            extend(&mut d, &chars_of(")"));
            return Some(string_of(&d));
        }
        match &process.exe {
            Some(exe) => {
                let low_exe = lowercase(exe.as_str());
                if self.matches(low_exe.as_str()) {
                    let mut d = chars_of("linux:");
                    extend(&mut d, &chars_of(process.name.as_str()));
                    extend(&mut d, &chars_of(" (pid="));
                    extend(&mut d, &decimal(process.pid as u64));
                    extend(&mut d, &chars_of(", exe="));
                    extend(&mut d, &chars_of(exe.as_str()));
                    extend(&mut d, &chars_of(")"));
                    Some(string_of(&d))
                } else {
                    None
                }
            },
            None => None,
        }
    }

    /// Scans the process table: the descriptor of the first process that
    /// matches by name or by executable path.
    pub fn check_processes(&self, table: &Vec<ProcessInfo>) -> (out: Option<String>)
        ensures
            opt_view(out) == first_process_match(self.targets(), table_of(table@), 0),
    {
        let mut i: usize = 0;
        while i < table.len()
            invariant
                i <= table.len(),
                first_process_match(self.targets(), table_of(table@), 0) == first_process_match(
                    self.targets(),
                    table_of(table@),
                    i as int,
                ),
            decreases table.len() - i,
        {
            assert(table_of(table@)[i as int] == table@[i as int]@);
            match self.check_process(&table[i]) {
                Some(d) => {
                    return Some(d);
                },
                None => {},
            }
            i += 1;
        }
        None
    }

    /// The names by which the host knows the tracked applications, as a
    /// sorted set would hold them: each once, none empty, in the order of the
    /// dictionary.
    pub fn normalized_windows_targets(&self) -> (names: Vec<Vec<char>>)
        ensures
            rows_of(names@) == windows_names(self.targets(), self.targets().len()),
            in_dictionary_order(rows_of(names@)),
    {
        proof {
            lemma_windows_names_ordered(self.targets(), self.targets().len());
        }
        let mut names: Vec<Vec<char>> = Vec::new();
        let exe = chars_of(".exe");
        let mut n: usize = 0;
        while n < self.targets.len()
            invariant
                n <= self.targets.len(),
                exe@ == ".exe"@,
                rows_of(names@) == windows_names(self.targets(), n as nat),
            decreases self.targets.len() - n,
        {
            let target = chars_of(self.targets[n].as_str());
            assert(self.targets()[n as int] == target@);
            let name = strip_trailing(&trim(&file_name(&target)), &exe);
            if name.len() > 0 {
                let mut place: usize = 0;
                while place < names.len() && is_before(&names[place], &name)
                    invariant
                        place <= names.len(),
                        place_for(rows_of(names@), name@, 0) == place_for(
                            rows_of(names@),
                            name@,
                            place as int,
                        ),
                    decreases names.len() - place,
                {
                    assert(rows_of(names@)[place as int] == names@[place as int]@);
                    place += 1;
                }
                proof {
                    if place < names.len() {
                        assert(rows_of(names@)[place as int] == names@[place as int]@);
                    }
                }
                if place < names.len() && crate::text::same_chars(&names[place], &name) {
                } else {
                    let ghost before = names@;
                    let ghost row = name@;
                    names.insert(place, name);
                    assert(rows_of(names@) =~= rows_of(before).insert(place as int, row));
                }
            }
            n += 1;
        }
        names
    }

    /// The command that asks the host for the tracked applications, or
    /// `None` where no tracked name has a host name.
    pub fn host_query(&self) -> (out: Option<String>)
        ensures
            match out {
                Some(q) => windows_names(self.targets(), self.targets().len()).len() > 0 && q@
                    == host_query(windows_names(self.targets(), self.targets().len())),
                None => windows_names(self.targets(), self.targets().len()).len() == 0,
            },
    {
        let names = self.normalized_windows_targets();
        if names.len() == 0 {
            return None;
        }
        let mut comma: Vec<char> = Vec::new();
        comma.push(',');
        assert(comma@ =~= seq![',']);
        let mut q = chars_of("Get-Process -Name ");
        extend(&mut q, &join(&names, &comma));
        extend(
            &mut q,
            &chars_of(" -ErrorAction SilentlyContinue | Select-Object -ExpandProperty ProcessName"),
        );
        Some(string_of(&q))
    }

    /// Reads the host's answer: the first process name in it gives the
    /// descriptor, an answer without one gives none.
    pub fn check_windows_output(&self, stdout: &str) -> (out: Option<String>)
        ensures
            opt_view(out) == host_match(stdout@),
    {
        let chars = chars_of(stdout);
        let mut line: Vec<char> = Vec::new();
        let mut i: usize = 0;
        while i < chars.len()
            invariant
                i <= chars.len(),
                chars@ == stdout@,
                scan_lines(chars@, i as nat).found is None,
                scan_lines(chars@, i as nat).line == line@,
            decreases chars.len() - i,
        {
            let c = chars[i];
            if c != '\n' {
                line.push(c);
            } else {
                let name = trim(&line);
                if name.len() > 0 {
                    proof {
                        assert(scan_lines(chars@, (i + 1) as nat).found == Some(name@));
                        lemma_scan_found_stays(chars@, (i + 1) as nat, chars@.len());
                    }
                    let mut d = chars_of("windows:");
                    extend(&mut d, &name);
                    return Some(string_of(&d));
                }
                line = Vec::new();
            }
            i += 1;
        }
        let name = trim(&line);
        if name.len() > 0 {
            let mut d = chars_of("windows:");
            extend(&mut d, &name);
            Some(string_of(&d))
        } else {
            None
        }
    }

    /// Matches the executable of the foreground window against the tracked
    /// names.
    pub fn check_native_windows(&self, exe_path: &str) -> (out: Option<String>)
        ensures
            opt_view(out) == foreground_match(self.targets(), exe_path@),
    {
        let name = string_of(&file_name(&chars_of(exe_path)));
        let low = lowercase(name.as_str());
        if self.matches(low.as_str()) {
            let mut d = chars_of("windows-native:");
            extend(&mut d, &chars_of(low.as_str()));
            Some(string_of(&d))
        } else {
            None
        }
    }

    /// Takes in the result of one poll: the monitor remembers it, and the
    /// sample says whether the condition holds and which edge the poll made.
    /// A change of the match while presence holds is a `Switched`, not an
    /// edge of presence.
    pub fn observe(&mut self, found: Option<String>) -> (out: (PresenceSample, PresenceEdge))
        ensures
            out.0.present == found is Some,
            opt_view(out.0.descriptor) == opt_view(found),
            out.1 == edge_of(old(self).seen(), opt_view(found)),
            final(self).seen() == seen_after(old(self).seen(), opt_view(found)),
            final(self).targets() == old(self).targets(),
    {
        let present = found.is_some();
        let edge = if present != self.last_status {
            if present {
                PresenceEdge::Detected
            } else {
                PresenceEdge::Lost
            }
        } else if present && !same_match(&self.last_match, &found) {
            PresenceEdge::Switched
        } else {
            PresenceEdge::Steady
        };
        let descriptor = match &found {
            Some(d) => Some(d.clone()),
            None => None,
        };
        self.last_status = present;
        self.last_match = found;
        (PresenceSample { present, descriptor }, edge)
    }
}

/// Whether the two matches are the same.
pub fn same_match(a: &Option<String>, b: &Option<String>) -> (eq: bool)
    ensures
        eq == (opt_view(*a) == opt_view(*b)),
{
    match (a, b) {
        (Some(x), Some(y)) => crate::text::str_eq(x.as_str(), y.as_str()),
        (None, None) => true,
        _ => false,
    }
}

/// The first probe, in the order of their priority, that found something.
pub fn first_match(probes: &Vec<Option<String>>) -> (out: Option<String>)
    ensures
        opt_view(out) == first_found(opt_views(probes@), 0),
{
    let mut i: usize = 0;
    while i < probes.len()
        invariant
            i <= probes.len(),
            first_found(opt_views(probes@), 0) == first_found(opt_views(probes@), i as int),
        decreases probes.len() - i,
    {
        assert(opt_views(probes@)[i as int] == opt_view(probes@[i as int]));
        match &probes[i] {
            Some(d) => {
                return Some(d.clone());
            },
            None => {},
        }
        i += 1;
    }
    None
}

/// Once the search has found a line it keeps it.
pub proof fn lemma_scan_found_stays(s: Seq<char>, m: nat, n: nat)
    requires
        m <= n,
        scan_lines(s, m).found is Some,
    ensures
        scan_lines(s, n) == scan_lines(s, m),
    decreases n,
{
    if n > m {
        lemma_scan_found_stays(s, m, (n - 1) as nat);
    }
}

} // verus!
