//! The fixed signal vocabulary carried by the queues, and the key model.

use vstd::prelude::*;
use crate::error::Error;

verus! {

/// A physical key the render surface can report. Only the keys the core
/// reacts to are modelled; the set is closed so dispatch stays exhaustive.
#[derive(Debug, Clone, Copy, PartialEq, Eq, Structural)]
pub enum Key {
    Escape,
    Tab,
    Backspace,
    Enter,
    Space,
    ArrowDown,
    ArrowLeft,
    ArrowRight,
    ArrowUp,
    A,
    B,
    C,
    D,
    E,
    F,
}

impl Key {
    /// The printable name of the key, as logged by key-capturing actions.
    pub open spec fn name_spec(self) -> Seq<char> {
        match self {
            Key::Escape => "Escape"@,
            Key::Tab => "Tab"@,
            Key::Backspace => "Backspace"@,
            Key::Enter => "Enter"@,
            Key::Space => "Space"@,
            Key::ArrowDown => "ArrowDown"@,
            Key::ArrowLeft => "ArrowLeft"@,
            Key::ArrowRight => "ArrowRight"@,
            Key::ArrowUp => "ArrowUp"@,
            Key::A => "A"@,
            Key::B => "B"@,
            Key::C => "C"@,
            Key::D => "D"@,
            Key::E => "E"@,
            Key::F => "F"@,
        }
    }

    pub fn name(self) -> (r: String)
        ensures
            r@ == self.name_spec(),
    {
        match self {
            Key::Escape => String::from_str("Escape"),
            Key::Tab => String::from_str("Tab"),
            Key::Backspace => String::from_str("Backspace"),
            Key::Enter => String::from_str("Enter"),
            Key::Space => String::from_str("Space"),
            Key::ArrowDown => String::from_str("ArrowDown"),
            Key::ArrowLeft => String::from_str("ArrowLeft"),
            Key::ArrowRight => String::from_str("ArrowRight"),
            Key::ArrowUp => String::from_str("ArrowUp"),
            Key::A => String::from_str("A"),
            Key::B => String::from_str("B"),
            Key::C => String::from_str("C"),
            Key::D => String::from_str("D"),
            Key::E => String::from_str("E"),
            Key::F => String::from_str("F"),
        }
    }
}

proof fn lemma_no_dup_push(s: Seq<Key>, x: Key)
    requires
        s.no_duplicates(),
        !s.contains(x),
    ensures
        s.push(x).no_duplicates(),
{
    assert forall|i: int, j: int|
        0 <= i < s.push(x).len() && 0 <= j < s.push(x).len() && i != j implies s.push(x)[i]
        != s.push(x)[j] by {
        if i < s.len() && j < s.len() {
            assert(s[i] != s[j]);
        } else if i < s.len() {
            assert(s.contains(s[i]));
        } else {
            assert(s.contains(s[j]));
        }
    }
}

/// A set of keys, as delivered by one tick of the render surface.
///
/// Stored as a duplicate-free vector; the abstract value is the set of its
/// elements.
#[derive(Debug, Clone, PartialEq, Eq)]
pub struct KeySet {
    keys: Vec<Key>,
}

impl View for KeySet {
    type V = Set<Key>;

    closed spec fn view(&self) -> Set<Key> {
        self.keys@.to_set()
    }
}

impl KeySet {
    /// The stored order of the keys; meaningful only through `wf`.
    pub closed spec fn seq(&self) -> Seq<Key> {
        self.keys@
    }

    pub closed spec fn wf(&self) -> bool {
        self.keys@.no_duplicates()
    }

    pub fn new() -> (r: KeySet)
        ensures
            r@ == Set::<Key>::empty(),
            r.wf(),
            r.seq() == Seq::<Key>::empty(),
    {
        let r = KeySet { keys: Vec::new() };
        proof {
            assert(r.keys@.to_set() =~= Set::<Key>::empty());
        }
        r
    }

    pub fn contains(&self, k: Key) -> (r: bool)
        ensures
            r == self@.contains(k),
    {
        let n = self.keys.len();
        let mut i: usize = 0;
        while i < n
            invariant
                n == self.keys@.len(),
                0 <= i <= n,
                forall|j: int| 0 <= j < i ==> self.keys@[j] != k,
            decreases n - i,
        {
            if self.keys[i] == k {
                return true;
            }
            i += 1;
        }
        proof {
            assert(!self.keys@.contains(k));
        }
        false
    }

    /// Builds a key set from a possibly repetitive listing of keys.
    pub fn from_vec(v: Vec<Key>) -> (r: KeySet)
        ensures
            r@ == v@.to_set(),
            r.wf(),
    {
        let n = v.len();
        let mut keys: Vec<Key> = Vec::new();
        let mut i: usize = 0;
        while i < n
            invariant
                n == v@.len(),
                0 <= i <= n,
                keys@.no_duplicates(),
                forall|t: int| 0 <= t < keys@.len() ==> v@.contains(#[trigger] keys@[t]),
                forall|j: int| 0 <= j < i ==> keys@.contains(#[trigger] v@[j]),
            decreases n - i,
        {
            let k = v[i];
            let mut seen = false;
            let m = keys.len();
            let mut j: usize = 0;
            while j < m
                invariant
                    m == keys@.len(),
                    0 <= j <= m,
                    seen == exists|t: int| 0 <= t < j && keys@[t] == k,
                decreases m - j,
            {
                if keys[j] == k {
                    seen = true;
                }
                j += 1;
            }
            proof {
                assert(seen == keys@.contains(k));
            }
            if !seen {
                let ghost old_keys = keys@;
                keys.push(k);
                proof {
                    broadcast use vstd::seq_lib::group_seq_properties;

                    lemma_no_dup_push(old_keys, k);
                    assert(v@.contains(v@[i as int]));
                }
            }
            i += 1;
        }
        proof {
            assert forall|x: Key| keys@.to_set().contains(x) == v@.to_set().contains(x) by {
                if keys@.contains(x) {
                    let t = choose|t: int| 0 <= t < keys@.len() && keys@[t] == x;
                    assert(v@.contains(keys@[t]));
                }
                if v@.contains(x) {
                    let j = choose|j: int| 0 <= j < v@.len() && v@[j] == x;
                    assert(keys@.contains(v@[j]));
                }
            }
            assert(keys@.to_set() =~= v@.to_set());
        }
        KeySet { keys }
    }

    /// The keys of `self` that are not in `other`.
    pub fn minus(&self, other: &KeySet) -> (r: KeySet)
        requires
            self.wf(),
        ensures
            r@ == self@.difference(other@),
            r.wf(),
    {
        let n = self.keys.len();
        let mut keys: Vec<Key> = Vec::new();
        let mut i: usize = 0;
        while i < n
            invariant
                n == self.keys@.len(),
                0 <= i <= n,
                self.keys@.no_duplicates(),
                keys@.no_duplicates(),
                forall|t: int| 0 <= t < keys@.len() ==> (exists|j: int|
                    0 <= j < i && self.keys@[j] == #[trigger] keys@[t])
                    && !other@.contains(keys@[t]),
                forall|j: int| 0 <= j < i && !other@.contains(#[trigger] self.keys@[j])
                    ==> keys@.contains(self.keys@[j]),
            decreases n - i,
        {
            let k = self.keys[i];
            if !other.contains(k) {
                let ghost old_keys = keys@;
                proof {
                    if old_keys.contains(k) {
                        let t = choose|t: int| 0 <= t < old_keys.len() && old_keys[t] == k;
                        let u = choose|u: int| 0 <= u < i && self.keys@[u] == old_keys[t];
                        assert(self.keys@[u] == self.keys@[i as int]);
                        assert(false);
                    }
                }
                keys.push(k);
                proof {
                    broadcast use vstd::seq_lib::group_seq_properties;

                    lemma_no_dup_push(old_keys, k);
                    assert(self.keys@.contains(self.keys@[i as int]));
                }
            }
            i += 1;
        }
        proof {
            assert forall|x: Key|
                keys@.to_set().contains(x) == self@.difference(other@).contains(x) by {
                if keys@.contains(x) {
                    let t = choose|t: int| 0 <= t < keys@.len() && keys@[t] == x;
                    assert(self.keys@.contains(keys@[t]));
                }
                if self.keys@.contains(x) && !other@.contains(x) {
                    let j = choose|j: int| 0 <= j < self.keys@.len() && self.keys@[j] == x;
                    assert(keys@.contains(self.keys@[j]));
                }
            }
            assert(keys@.to_set() =~= self@.difference(other@));
        }
        KeySet { keys }
    }

    pub fn is_empty(&self) -> (r: bool)
        requires
            self.wf(),
        ensures
            r == (self@ == Set::<Key>::empty()),
    {
        proof {
            if self.keys@.len() == 0 {
                assert(self@ =~= Set::<Key>::empty());
            } else {
                assert(self@.contains(self.keys@[0]));
            }
        }
        self.keys.len() == 0
    }

    /// The printable names of the keys, in stored order.
    pub fn names(&self) -> (r: Vec<String>)
        ensures
            r@.len() == self.seq().len(),
            forall|i: int| 0 <= i < r@.len() ==> r@[i]@ == self.seq()[i].name_spec(),
    {
        let n = self.keys.len();
        let mut names: Vec<String> = Vec::new();
        let mut i: usize = 0;
        while i < n
            invariant
                n == self.keys@.len(),
                0 <= i <= n,
                names@.len() == i,
                forall|j: int| 0 <= j < i ==> names@[j]@ == self.keys@[j].name_spec(),
            decreases n - i,
        {
            names.push(self.keys[i].name());
            i += 1;
        }
        names
    }
}

/// A structured value carried by one log entry: free text, a number, an
/// opaque serialized payload, or a list of texts (as a key listing).
#[derive(Debug, PartialEq)]
pub enum LogValue {
    Text(String),
    Int(i64),
    Bytes(Vec<u8>),
    TextList(Vec<String>),
}

/// The abstract value of a `LogValue`.
pub enum LogValueV {
    Text(Seq<char>),
    Int(int),
    Bytes(Seq<u8>),
    TextList(Seq<Seq<char>>),
}

impl View for LogValue {
    type V = LogValueV;

    open spec fn view(&self) -> LogValueV {
        match self {
            LogValue::Text(s) => LogValueV::Text(s@),
            LogValue::Int(i) => LogValueV::Int(*i as int),
            LogValue::Bytes(b) => LogValueV::Bytes(b@),
            LogValue::TextList(vs) => LogValueV::TextList(
                vs@.map_values(|s: String| s@),
            ),
        }
    }
}

/// One field of a structured log entry.
#[derive(Debug, PartialEq)]
pub struct LogEntry {
    pub name: String,
    pub value: LogValue,
}

impl LogEntry {
    pub fn new(name: String, value: LogValue) -> (r: LogEntry)
        ensures
            r.name == name,
            r.value == value,
    {
        LogEntry { name, value }
    }
}

/// The abstract value of a `LogEntry`.
pub struct LogEntryV {
    pub name: Seq<char>,
    pub value: LogValueV,
}

impl View for LogEntry {
    type V = LogEntryV;

    open spec fn view(&self) -> LogEntryV {
        LogEntryV { name: self.name@, value: self.value@ }
    }
}

/// One logging request: a single entry, or a batch sharing one timestamp.
#[derive(Debug, PartialEq)]
pub enum LoggerSignal {
    Append(String, LogEntry),
    Extend(String, Vec<LogEntry>),
}

/// The abstract value of a `LoggerSignal`: the group name and the entries.
pub enum LoggerSignalV {
    Append(Seq<char>, LogEntryV),
    Extend(Seq<char>, Seq<LogEntryV>),
}

impl View for LoggerSignal {
    type V = LoggerSignalV;

    open spec fn view(&self) -> LoggerSignalV {
        match self {
            LoggerSignal::Append(g, e) => LoggerSignalV::Append(g@, e@),
            LoggerSignal::Extend(g, es) => LoggerSignalV::Extend(
                g@,
                es@.map_values(|e: LogEntry| e@),
            ),
        }
    }
}

/// A signal consumed by the Sync Processor.
#[derive(Debug, PartialEq)]
pub enum SyncSignal {
    UpdateGraph,
    KeyPress(i64, KeySet),
    Finish,
}

/// The abstract value of a `SyncSignal`: a key press carries its timestamp
/// and the set of keys.
pub enum SyncSignalV {
    UpdateGraph,
    KeyPress(int, Set<Key>),
    Finish,
}

impl View for SyncSignal {
    type V = SyncSignalV;

    open spec fn view(&self) -> SyncSignalV {
        match self {
            SyncSignal::UpdateGraph => SyncSignalV::UpdateGraph,
            SyncSignal::KeyPress(t, keys) => SyncSignalV::KeyPress(*t as int, keys@),
            SyncSignal::Finish => SyncSignalV::Finish,
        }
    }
}

/// The abstract values of a sequence of sync signals.
pub open spec fn sync_views(s: Seq<SyncSignal>) -> Seq<SyncSignalV> {
    s.map_values(|x: SyncSignal| x@)
}

/// A signal consumed by the Async Processor. Logging requests are tagged
/// with the producer-side receipt timestamp, in milliseconds.
#[derive(Debug, PartialEq)]
pub enum AsyncSignal {
    Logger(i64, LoggerSignal),
    Finish,
}

/// The logging requests carried in a sequence of async signals, in order,
/// with their timestamps stripped.
pub open spec fn payloads(s: Seq<AsyncSignal>) -> Seq<LoggerSignalV>
    decreases s.len(),
{
    if s.len() == 0 {
        Seq::empty()
    } else {
        payloads(s.drop_last()) + match s.last() {
            AsyncSignal::Logger(_, sig) => seq![sig@],
            AsyncSignal::Finish => Seq::<LoggerSignalV>::empty(),
        }
    }
}

pub proof fn lemma_payloads_push_logger(s: Seq<AsyncSignal>, t: i64, sig: LoggerSignal)
    ensures
        payloads(s.push(AsyncSignal::Logger(t, sig))) == payloads(s).push(sig@),
{
    assert(s.push(AsyncSignal::Logger(t, sig)).drop_last() =~= s);
    assert(payloads(s.push(AsyncSignal::Logger(t, sig))) =~= payloads(s).push(sig@));
}

pub proof fn lemma_payloads_push_finish(s: Seq<AsyncSignal>)
    ensures
        payloads(s.push(AsyncSignal::Finish)) == payloads(s),
{
    assert(s.push(AsyncSignal::Finish).drop_last() =~= s);
    assert(payloads(s.push(AsyncSignal::Finish)) =~= payloads(s));
}

/// A one-directional notification from the core to the owning server.
#[derive(Debug, PartialEq)]
pub enum ServerSignal {
    BlockFinished,
    BlockInterrupted,
    BlockCrashed(Error),
    SyncComplete(Result<(), Error>),
    AsyncComplete(Result<(), Error>),
    LoadComplete,
}

/// A signal type with a designated terminal variant, after which its queue
/// yields nothing further.
pub trait Terminal: Sized {
    spec fn is_terminal(&self) -> bool;

    fn terminal(&self) -> (r: bool)
        ensures
            r == self.is_terminal(),
    ;
}

impl Terminal for SyncSignal {
    open spec fn is_terminal(&self) -> bool {
        self is Finish
    }

    fn terminal(&self) -> (r: bool)
        ensures
            r == self.is_terminal(),
    {
        matches!(self, SyncSignal::Finish)
    }
}

impl Terminal for AsyncSignal {
    open spec fn is_terminal(&self) -> bool {
        self is Finish
    }

    fn terminal(&self) -> (r: bool)
        ensures
            r == self.is_terminal(),
    {
        matches!(self, AsyncSignal::Finish)
    }
}

impl Terminal for ServerSignal {
    open spec fn is_terminal(&self) -> bool {
        false
    }

    fn terminal(&self) -> (r: bool)
        ensures
            r == self.is_terminal(),
    {
        false
    }
}

} // verus!
