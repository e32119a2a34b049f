//! The remote console's own state and the decisions it takes on what arrives
//! over the socket; the socket and the work it starts stay with the caller.
use vstd::prelude::*;
use crate::text::{owned, push_str, push_char, chars_of, seq_contains, str_contains, replace, replace_all,
    lowercase, to_lowercase, str_eq};
use crate::remote::transfer::{FileTransfers, TransferMap, receive_chunk};

verus! {

/// What arrives over the socket, as far as the console's state cares.
pub enum SocketEvent {
    /// The connection opened.
    Opened,
    /// The connection closed.
    Closed,
    /// The connection failed; the error, as text.
    Error(String),
    /// A text message: a raw command line for this machine's shell.
    Text(String),
    /// A binary message that decoded to a command; its debug rendering.
    Command(String),
    /// Any other binary message.
    Binary,
}

/// Whether the connection is up after `events`: the last event decides, and
/// with no event at all it stays up.
pub open spec fn connected_after(events: Seq<SocketEvent>) -> bool {
    if events.len() == 0 {
        true
    } else {
        match events.last() {
            SocketEvent::Closed => false,
            SocketEvent::Error(_) => false,
            _ => true,
        }
    }
}

/// The line an event adds to the console's history, if any.
pub open spec fn history_line(ev: SocketEvent) -> Option<Seq<char>> {
    match ev {
        SocketEvent::Opened => Some("Connection Opened"@),
        SocketEvent::Closed => Some("Connection Closed"@),
        SocketEvent::Error(e) => Some(e@),
        SocketEvent::Text(t) => Some("Raw Command: "@ + t@),
        SocketEvent::Command(c) => Some(c@),
        SocketEvent::Binary => None,
    }
}

/// The history lines `events` add, in order.
pub open spec fn history_lines(events: Seq<SocketEvent>) -> Seq<Seq<char>>
    decreases events.len(),
{
    if events.len() == 0 {
        Seq::empty()
    } else {
        match history_line(events.last()) {
            Some(l) => history_lines(events.drop_last()).push(l),
            None => history_lines(events.drop_last()),
        }
    }
}

/// A plugin tool call sent on by the console, waiting for its result:
/// request id, plugin id, tool name.
pub type PluginCall = (String, String, String);

/// The console's state, as seen from outside.
pub struct ConsoleView {
    pub live_stats: bool,
    pub connected: bool,
    pub history: Seq<Seq<char>>,
    pub pending: Seq<(Seq<char>, Seq<char>, Seq<char>)>,
    pub transfers: TransferMap,
}

/// The part of the remote console that decides; the socket, the processes and
/// the files stay with its owner.
pub struct ConsoleState {
    live_stats: bool,
    connected: bool,
    history: Vec<String>,
    pending: Vec<PluginCall>,
    transfers: FileTransfers,
}

/// The views of some strings.
pub open spec fn views(v: Seq<String>) -> Seq<Seq<char>> {
    v.map_values(|s: String| s@)
}

/// The views of some pending plugin calls.
pub open spec fn call_views(v: Seq<PluginCall>) -> Seq<(Seq<char>, Seq<char>, Seq<char>)> {
    v.map_values(|c: PluginCall| (c.0@, c.1@, c.2@))
}

impl View for ConsoleState {
    type V = ConsoleView;

    closed spec fn view(&self) -> ConsoleView {
        ConsoleView {
            live_stats: self.live_stats,
            connected: self.connected,
            history: views(self.history@),
            pending: call_views(self.pending@),
            transfers: self.transfers@,
        }
    }
}

/// The first position of a pending call with request id `id`, if any.
pub open spec fn first_call(pending: Seq<(Seq<char>, Seq<char>, Seq<char>)>, id: Seq<char>) -> Option<int> {
    if exists|i: int| 0 <= i < pending.len() && pending[i].0 == id {
        Some(choose|i: int| 0 <= i < pending.len() && pending[i].0 == id
            && forall|j: int| 0 <= j < i ==> #[trigger] pending[j].0 != id)
    } else {
        None
    }
}

impl ConsoleState {
    /// The state holds together: the transfers are well formed.
    pub closed spec fn wf(&self) -> bool {
        self.transfers.wf()
    }

    /// A freshly connected console: connected, no live statistics, nothing pending.
    pub fn new() -> (c: ConsoleState)
        ensures
            c.wf(),
            c@ == (ConsoleView {
                live_stats: false,
                connected: true,
                history: Seq::empty(),
                pending: Seq::empty(),
                transfers: TransferMap::empty(),
            }),
    {
        let c = ConsoleState {
            live_stats: false,
            connected: true,
            history: Vec::new(),
            pending: Vec::new(),
            transfers: FileTransfers::new(),
        };
        assert(c@.history =~= Seq::<Seq<char>>::empty());
        assert(c@.pending =~= Seq::<(Seq<char>, Seq<char>, Seq<char>)>::empty());
        c
    }

    /// Whether the connection is up.
    pub fn is_connected(&self) -> (b: bool)
        ensures
            b == self@.connected,
    {
        self.connected
    }

    /// The history shown in the console, oldest first.
    pub fn history(&self) -> (h: &Vec<String>)
        ensures
            views(h@) == self@.history,
    {
        &self.history
    }

    /// The technician asked for live statistics: they are started once, the
    /// first time, and the request is recorded with `cmd_text`, its rendering.
    /// Returns whether they must be started now.
    pub fn request_live_stats(&mut self, cmd_text: &str) -> (start: bool)
        requires
            old(self).wf(),
        ensures
            final(self).wf(),
            start == !old(self)@.live_stats,
            final(self)@ == (if start {
                ConsoleView {
                    live_stats: true,
                    history: old(self)@.history.push("Cmd: "@ + cmd_text@),
                    ..old(self)@
                }
            } else {
                old(self)@
            }),
    {
        if self.live_stats {
            false
        } else {
            self.live_stats = true;
            let mut line = owned("Cmd: ");
            push_str(&mut line, cmd_text);
            let ghost before = self.history@;
            self.history.push(line);
            proof {
                assert(views(self.history@) =~= views(before).push("Cmd: "@ + cmd_text@));
            }
            true
        }
    }

    /// The technician ended the session.
    pub fn quit(&mut self)
        requires
            old(self).wf(),
        ensures
            final(self).wf(),
            final(self)@ == (ConsoleView { connected: false, ..old(self)@ }),
    {
        self.connected = false;
    }

    /// A plugin tool call was sent on; its result is awaited.
    pub fn await_plugin_call(&mut self, request_id: String, plugin_id: String, tool_name: String)
        requires
            old(self).wf(),
        ensures
            final(self).wf(),
            final(self)@ == (ConsoleView {
                pending: old(self)@.pending.push((request_id@, plugin_id@, tool_name@)),
                ..old(self)@
            }),
    {
        let ghost before = self.pending@;
        let ghost call = (request_id@, plugin_id@, tool_name@);
        self.pending.push((request_id, plugin_id, tool_name));
        proof {
            assert(call_views(self.pending@) =~= call_views(before).push(call));
        }
    }

    /// A plugin tool result arrived for `request_id`: the first call awaiting
    /// it is settled and handed back; a result nobody awaits is dropped.
    pub fn settle_plugin_call(&mut self, request_id: &str) -> (call: Option<PluginCall>)
        requires
            old(self).wf(),
        ensures
            final(self).wf(),
            match first_call(old(self)@.pending, request_id@) {
                Some(i) => call is Some
                    && (call.unwrap().0@, call.unwrap().1@, call.unwrap().2@) == old(self)@.pending[i]
                    && final(self)@ == (ConsoleView { pending: old(self)@.pending.remove(i), ..old(self)@ }),
                None => call is None && final(self)@ == old(self)@,
            },
    {
        let ghost pv = call_views(self.pending@);
        let ghost s0 = self@;
        let mut i: usize = 0;
        while i < self.pending.len()
            invariant
                i <= self.pending@.len(),
                self.wf(),
                self@ == s0,
                old(self)@ == s0,
                pv == s0.pending,
                pv == call_views(self.pending@),
                forall|j: int| 0 <= j < i ==> #[trigger] pv[j].0 != request_id@,
            decreases self.pending@.len() - i,
        {
            if crate::text::str_eq(self.pending[i].0.as_str(), request_id) {
                proof {
                    assert(pv[i as int].0 == request_id@);
                    let f = first_call(pv, request_id@);
                    assert(f is Some);
                    let k = f->0;
                    if k < i {
                        assert(pv[k].0 != request_id@);
                    }
                    if k > i {
                        assert(pv[i as int].0 != request_id@);
                    }
                    assert(k == i);
                }
                let ghost before = self.pending@;
                let c = self.pending.remove(i);
                proof {
                    assert(c == before[i as int]);
                    assert((c.0@, c.1@, c.2@) == pv[i as int]);
                    assert(call_views(self.pending@) =~= pv.remove(i as int));
                    assert(self@ == (ConsoleView { pending: pv.remove(i as int), ..s0 }));
                    assert(s0 == old(self)@);
                    assert(first_call(old(self)@.pending, request_id@) == Some(i as int));
                }
                return Some(c);
            }
            i = i + 1;
        }
        None
    }

    /// A chunk of a file sent by the technician arrived; returns the file's
    /// bytes once its last chunk is in.
    pub fn receive_file_chunk(&mut self, filename: String, index: u32, total: u32, data: Vec<u8>)
        -> (done: Option<Vec<u8>>)
        requires
            old(self).wf(),
        ensures
            final(self).wf(),
            (final(self)@.transfers, match done { Some(d) => Some(d@), None => None })
                == receive_chunk(old(self)@.transfers, filename@, index, total, data),
            final(self)@ == (ConsoleView { transfers: final(self)@.transfers, ..old(self)@ }),
    {
        self.transfers.receive(filename, index, total, data)
    }

    /// Takes in what the socket delivered since the last look; returns whether
    /// the connection is still up, which the console then records.
    pub fn take_events(&mut self, events: Vec<SocketEvent>) -> (up: bool)
        requires
            old(self).wf(),
        ensures
            final(self).wf(),
            up == connected_after(events@),
            final(self)@ == (ConsoleView {
                connected: up,
                history: old(self)@.history + history_lines(events@),
                ..old(self)@
            }),
    {
        let mut up = true;
        let mut i: usize = 0;
        let ghost s0 = self@;
        proof {
            assert(events@.subrange(0, 0) =~= Seq::<SocketEvent>::empty());
            assert(s0.history + history_lines(Seq::<SocketEvent>::empty()) =~= s0.history);
        }
        while i < events.len()
            invariant
                i <= events@.len(),
                self.wf(),
                up == connected_after(events@.subrange(0, i as int)),
                self@ == (ConsoleView { history: s0.history + history_lines(events@.subrange(0, i as int)), ..s0 }),
            decreases events@.len() - i,
        {
            let ghost before = self.history@;
            let ghost sub = events@.subrange(0, i + 1);
            proof {
                assert(sub.drop_last() =~= events@.subrange(0, i as int));
                assert(sub.last() == events@[i as int]);
            }
            let line: Option<String> = match &events[i] {
                SocketEvent::Opened => {
                    up = true;
                    Some(owned("Connection Opened"))
                },
                SocketEvent::Closed => {
                    up = false;
                    Some(owned("Connection Closed"))
                },
                SocketEvent::Error(e) => {
                    up = false;
                    Some(owned(e.as_str()))
                },
                SocketEvent::Text(t) => {
                    up = true;
                    let mut l = owned("Raw Command: ");
                    push_str(&mut l, t.as_str());
                    Some(l)
                },
                SocketEvent::Command(c) => {
                    up = true;
                    Some(owned(c.as_str()))
                },
                SocketEvent::Binary => {
                    up = true;
                    None
                },
            };
            proof {
                assert(match line { Some(l) => Some(l@), None => None } == history_line(events@[i as int]));
            }
            match line {
                Some(l) => {
                    let ghost lv = l@;
                    self.history.push(l);
                    proof {
                        assert(views(self.history@) =~= views(before).push(lv));
                    }
                },
                None => {},
            }
            i = i + 1;
            proof {
                assert(views(self.history@) =~= s0.history + history_lines(events@.subrange(0, i as int)));
            }
        }
        proof {
            assert(events@.subrange(0, i as int) =~= events@);
        }
        self.connected = up;
        up
    }

    /// The technician typed `input` and pressed enter: it is recorded and
    /// handed back, to be sent.
    pub fn submit_input(&mut self, input: &str) -> (send: String)
        requires
            old(self).wf(),
        ensures
            final(self).wf(),
            send@ == input@,
            final(self)@ == (ConsoleView {
                history: old(self)@.history.push("You\n"@ + input@),
                ..old(self)@
            }),
    {
        let mut line = owned("You\n");
        push_str(&mut line, input);
        let ghost before = self.history@;
        self.history.push(line);
        proof {
            assert(views(self.history@) =~= views(before).push("You\n"@ + input@));
        }
        owned(input)
    }
}


/// One variable expanded in `path`: where `lowered`, the path in lower case,
/// contains `lowered_pattern`, the reference `%name%` in lower case, each
/// `%name%` written as given is replaced by `value`; else `path` stays.
pub open spec fn expand_one_var(path: Seq<char>, name: Seq<char>, value: Seq<char>, lowered: Seq<char>,
    lowered_pattern: Seq<char>) -> Seq<char> {
    if seq_contains(lowered, lowered_pattern) {
        replace_all(path, "%"@ + name + "%"@, value)
    } else {
        path
    }
}

/// `path` with the `%NAME%` references to the variables in `vars` expanded,
/// one variable after the other in the order given: a reference is looked
/// for without regard to case, and replaced where it is written as given.
pub open spec fn expand_vars(path: Seq<char>, vars: Seq<(Seq<char>, Seq<char>)>) -> Seq<char>
    decreases vars.len(),
{
    if vars.len() == 0 {
        path
    } else {
        let r = expand_vars(path, vars.drop_last());
        let name = vars.last().0;
        expand_one_var(r, name, vars.last().1, lowercase(r), lowercase("%"@ + name + "%"@))
    }
}

/// Expands the variable `name` to `value` in `path`, given `path` and the
/// reference `%name%` already read in lower case.
pub fn expand_var(path: &str, name: &str, value: &str, lowered: &str, lowered_pattern: &str) -> (r: String)
    ensures
        r@ == expand_one_var(path@, name@, value@, lowered@, lowered_pattern@),
{
    if str_contains(lowered, lowered_pattern) {
        let mut pattern = owned("%");
        push_str(&mut pattern, name);
        push_str(&mut pattern, "%");
        proof {
            reveal_strlit("%");
        }
        replace(path, pattern.as_str(), value)
    } else {
        owned(path)
    }
}

/// Expands the `%NAME%` references of `path` to the environment `vars`
/// (name, value), as a directory listing does before it reads the folder.
pub fn expand_env_vars(path: &str, vars: &Vec<(String, String)>) -> (r: String)
    ensures
        r@ == expand_vars(path@, vars@.map_values(|v: (String, String)| (v.0@, v.1@))),
{
    let ghost vv = vars@.map_values(|v: (String, String)| (v.0@, v.1@));
    let mut result = owned(path);
    let mut i: usize = 0;
    proof {
        assert(vv.subrange(0, 0) =~= Seq::<(Seq<char>, Seq<char>)>::empty());
    }
    while i < vars.len()
        invariant
            i <= vars@.len(),
            vv == vars@.map_values(|v: (String, String)| (v.0@, v.1@)),
            result@ == expand_vars(path@, vv.subrange(0, i as int)),
        decreases vars@.len() - i,
    {
        let mut pattern = owned("%");
        push_str(&mut pattern, vars[i].0.as_str());
        push_str(&mut pattern, "%");
        proof {
            assert(vv.subrange(0, i + 1).drop_last() =~= vv.subrange(0, i as int));
            assert(vv.subrange(0, i + 1).last() == (vars@[i as int].0@, vars@[i as int].1@));
        }
        let low = to_lowercase(result.as_str());
        let low_pattern = to_lowercase(pattern.as_str());
        result = expand_var(result.as_str(), vars[i].0.as_str(), vars[i].1.as_str(), low.as_str(), low_pattern.as_str());
        i = i + 1;
    }
    proof {
        assert(vv.subrange(0, i as int) =~= vv);
    }
    result
}

/// `l` without one `\r` at its end.
pub open spec fn strip_cr(l: Seq<char>) -> Seq<char> {
    if l.len() > 0 && l.last() == '\r' { l.drop_last() } else { l }
}

/// The lines of `s`, as `str::lines` cuts them: at each `\n`, a `\r` just
/// before it dropped too; a last line needs no line ending, and an ending
/// at the very end opens no empty line.
pub open spec fn lines_of(s: Seq<char>) -> Seq<Seq<char>>
    decreases s.len(),
{
    lines_from(s, Seq::empty())
}

/// The lines of `pending + s`, where `pending` holds no line ending.
pub open spec fn lines_from(s: Seq<char>, pending: Seq<char>) -> Seq<Seq<char>>
    decreases s.len(),
{
    if s.len() == 0 {
        if pending.len() == 0 { Seq::empty() } else { seq![pending] }
    } else if s[0] == '\n' {
        seq![strip_cr(pending)] + lines_from(s.skip(1), Seq::empty())
    } else {
        lines_from(s.skip(1), pending.push(s[0]))
    }
}

/// The lines of `s`, as `str::lines` cuts them.
pub fn split_lines(s: &str) -> (lines: Vec<String>)
    ensures
        views(lines@) == lines_of(s@),
{
    let chars = chars_of(s);
    let mut lines: Vec<String> = Vec::new();
    let mut pending = String::new();
    let mut i: usize = 0;
    proof {
        assert(s@.skip(0) =~= s@);
        assert(views(lines@) + lines_from(s@, pending@) =~= lines_of(s@));
    }
    while i < chars.len()
        invariant
            chars@ == s@,
            i <= chars@.len(),
            views(lines@) + lines_from(s@.skip(i as int), pending@) == lines_of(s@),
        decreases chars@.len() - i,
    {
        let ghost rest = s@.skip(i as int);
        let ghost before = lines@;
        let ghost p = pending@;
        proof {
            assert(rest.skip(1) =~= s@.skip(i + 1));
            assert(rest[0] == chars@[i as int]);
        }
        if chars[i] == '\n' {
            let pc = chars_of(pending.as_str());
            let line = if pc.len() > 0 && pc[pc.len() - 1] == '\r' {
                pending.as_str().substring_char(0, pc.len() - 1).to_owned()
            } else {
                owned(pending.as_str())
            };
            proof {
                if p.len() > 0 && p.last() == '\r' {
                    assert(p.subrange(0, p.len() - 1) =~= p.drop_last());
                }
                assert(line@ == strip_cr(p));
            }
            lines.push(line);
            pending = String::new();
            proof {
                assert(views(lines@) =~= views(before).push(strip_cr(p)));
                assert(views(before).push(strip_cr(p)) + lines_from(rest.skip(1), Seq::empty())
                    =~= views(before) + (seq![strip_cr(p)] + lines_from(rest.skip(1), Seq::empty())));
            }
        } else {
            push_char(&mut pending, chars[i]);
        }
        i = i + 1;
    }
    proof {
        assert(s@.skip(i as int) =~= Seq::<char>::empty());
    }
    if pending.as_str().unicode_len() > 0 {
        let ghost before = lines@;
        let ghost p = pending@;
        lines.push(pending);
        proof {
            assert(views(lines@) =~= views(before) + seq![p]);
        }
    } else {
        proof {
            assert(views(lines@) + Seq::<Seq<char>>::empty() =~= views(lines@));
        }
    }
    lines
}

/// Whether a binary message goes to the mirrored window's input (its first
/// byte is the input tag) rather than being read as a command.
pub fn is_window_input(message: &Vec<u8>, input_tag: u8) -> (b: bool)
    ensures
        b == (message@.len() > 0 && message@[0] == input_tag),
{
    message.len() > 0 && message[0] == input_tag
}

/// What follows the first `sep` in `s`; nothing when `sep` is absent.
pub open spec fn after_first(s: Seq<char>, sep: Seq<char>) -> Seq<char>
    decreases s.len(),
{
    if sep.len() == 0 {
        s
    } else if s.len() < sep.len() {
        Seq::empty()
    } else if s.subrange(0, sep.len() as int) == sep {
        s.skip(sep.len() as int)
    } else {
        after_first(s.skip(1), sep)
    }
}

/// How a history line is shown: whether it is the technician's own, the
/// label above it, and the text in it.
pub open spec fn history_display(item: Seq<char>) -> (bool, Seq<char>, Seq<char>) {
    let mine = seq_contains(item, "You"@);
    if seq_contains(item, "Cmd"@) {
        (mine, "Cmd"@, after_first(item, ":"@))
    } else if seq_contains(item, "Raw Command"@) {
        (mine, "Raw Command"@, after_first(item, ":"@))
    } else if mine {
        (mine, "You"@, after_first(item, "\n"@))
    } else {
        (mine, "Raw Binary Payload"@, item)
    }
}

fn text_after(s: &str, sep: &str) -> (r: String)
    requires
        sep@.len() > 0,
    ensures
        r@ == after_first(s@, sep@),
{
    let sv = chars_of(s);
    let pv = chars_of(sep);
    let mut i: usize = 0;
    proof {
        assert(s@.skip(0) =~= s@);
    }
    while i < sv.len()
        invariant
            sv@ == s@,
            pv@ == sep@,
            pv@.len() > 0,
            i <= sv@.len(),
            after_first(s@, sep@) == after_first(s@.skip(i as int), sep@),
        decreases sv@.len() - i,
    {
        let ghost rest = s@.skip(i as int);
        if pv.len() > sv.len() - i {
            proof {
                assert(rest.len() < sep@.len());
            }
            return String::new();
        }
        if crate::text::contains_at(&sv, &pv, i) {
            proof {
                assert(rest.subrange(0, pv@.len() as int) =~= sv@.subrange(i as int, i + pv@.len()));
            }
            let r = s.substring_char(i + pv.len(), sv.len());
            proof {
                assert(rest.skip(pv@.len() as int) =~= s@.subrange(i + pv@.len(), s@.len() as int));
            }
            return r.to_owned();
        }
        proof {
            assert(rest.subrange(0, pv@.len() as int) =~= sv@.subrange(i as int, i + pv@.len()));
            assert(rest.skip(1) =~= s@.skip(i + 1));
        }
        i = i + 1;
    }
    proof {
        assert(s@.skip(i as int).len() == 0);
    }
    String::new()
}

/// Whether a line a shell command printed asks for input (it mentions
/// `Enter` or `Password:`), in which case it is answered instead of shown.
pub fn is_interactive_prompt(line: &str) -> (b: bool)
    ensures
        b == (seq_contains(line@, "Enter"@) || seq_contains(line@, "Password:"@)),
{
    str_contains(line, "Enter") || str_contains(line, "Password:")
}

/// Whether a line typed for an interactive command is written to its input:
/// every line but `quit`, which ends the session instead.
pub fn forwards_input(input: &str) -> (b: bool)
    ensures
        b == (input@ != "quit"@),
{
    !str_eq(input, "quit")
}

/// How the history line `item` is shown: whether it is the technician's own,
/// its label and its text.
pub fn history_entry_display(item: &str) -> (r: (bool, &'static str, String))
    ensures
        (r.0, r.1@, r.2@) == history_display(item@),
{
    proof {
        reveal_strlit(":");
        reveal_strlit("\n");
    }
    let mine = str_contains(item, "You");
    if str_contains(item, "Cmd") {
        (mine, "Cmd", text_after(item, ":"))
    } else if str_contains(item, "Raw Command") {
        (mine, "Raw Command", text_after(item, ":"))
    } else if mine {
        (mine, "You", text_after(item, "\n"))
    } else {
        (mine, "Raw Binary Payload", owned(item))
    }
}

/// The connection is down right after it closes or fails, and up right
/// after it opens or anything else arrives, whatever came before; each
/// event adds at most one history line, a failure its own text.
pub proof fn lemma_connection_follows_last_event(events: Seq<SocketEvent>, e: String, t: String)
    ensures
        !connected_after(events.push(SocketEvent::Closed)),
        !connected_after(events.push(SocketEvent::Error(e))),
        connected_after(events.push(SocketEvent::Opened)),
        connected_after(events.push(SocketEvent::Text(t))),
        connected_after(events.push(SocketEvent::Binary)),
        history_lines(events.push(SocketEvent::Error(e))) == history_lines(events).push(e@),
        history_lines(events.push(SocketEvent::Binary)) == history_lines(events),
        history_lines(events).len() <= events.len(),
    decreases events.len(),
{
    assert(events.push(SocketEvent::Error(e)).drop_last() =~= events);
    assert(events.push(SocketEvent::Binary).drop_last() =~= events);
    if events.len() > 0 {
        lemma_connection_follows_last_event(events.drop_last(), e, t);
    }
}

} // verus!
