//! What the services need to reach the database, and the payloads they send it.

use crate::models::count::CountEntry;
use crate::models::heartbeat::HeartbeatEntry;
use vstd::prelude::*;
use vstd::string::*;

verus! {

/// Where the database lives, how to authenticate, and which tables and door to use.
#[derive(Clone)]
pub struct Credentials {
    pub url: String,
    pub secret: String,
    pub count_table: String,
    pub sensor_table: String,
    pub sensor_name: String,
}

/// The body of an insert or upsert: the serialised row inside a JSON array.
pub fn row_payload(serialised_row: &str) -> (r: String)
    ensures
        r@ == "["@ + serialised_row@ + "]"@,
{
    let mut payload = "[".to_owned();
    payload.append(serialised_row);
    payload.append("]");
    payload
}

/// The row the database answered first, if it answered any.
pub fn first_row<T>(rows: Vec<T>) -> (r: Option<T>)
    ensures
        rows@.len() > 0 ==> r == Some(rows@[0]),
        rows@.len() == 0 ==> r is None,
{
    let mut rows = rows;
    if rows.len() > 0 {
        Some(rows.remove(0))
    } else {
        None
    }
}

/// The doors of the sensors, in order.
pub open spec fn doors_of(sensors: Seq<HeartbeatEntry>) -> Seq<Seq<char>> {
    sensors.map_values(|sensor: HeartbeatEntry| sensor.door@)
}

/// The collection of the latest count of each sensor's door: the database is
/// asked for one door at a time, in the sensors' order, and the rows it
/// answers are kept in that order.
pub struct LatestCountScan {
    doors: Vec<String>,
    next: usize,
    found: Vec<CountEntry>,
}

impl LatestCountScan {
    /// The doors to ask about, in order.
    pub closed spec fn doors(&self) -> Seq<Seq<char>> {
        self.doors@.map_values(|door: String| door@)
    }

    /// How many doors have been answered.
    pub closed spec fn answered(&self) -> nat {
        self.next as nat
    }

    /// The rows answered so far, in order.
    pub closed spec fn found(&self) -> Seq<CountEntry> {
        self.found@
    }

    /// No more doors are answered than there are.
    pub closed spec fn wf(&self) -> bool {
        self.next <= self.doors@.len()
    }

    /// A scan over the doors of `sensors`, with nothing answered yet.
    pub fn new(sensors: &Vec<HeartbeatEntry>) -> (scan: Self)
        ensures
            scan.wf(),
            scan.doors() == doors_of(sensors@),
            scan.answered() == 0,
            scan.found() == Seq::<CountEntry>::empty(),
    {
        let mut doors: Vec<String> = Vec::new();
        let n = sensors.len();
        let mut i: usize = 0;
        while i < n
            invariant
                n == sensors@.len(),
                i <= n,
                doors@.map_values(|door: String| door@) == doors_of(sensors@).take(i as int),
            decreases n - i,
        {
            let ghost before = doors@;
            doors.push(sensors[i].door.clone());
            assert(doors@.map_values(|door: String| door@) =~= before.map_values(|door: String| door@).push(sensors@[i as int].door@));
            assert(doors_of(sensors@).take(i as int + 1) =~= doors_of(sensors@).take(i as int).push(sensors@[i as int].door@));
            i = i + 1;
        }
        assert(doors_of(sensors@).take(n as int) =~= doors_of(sensors@));
        LatestCountScan { doors, next: 0, found: Vec::new() }
    }

    /// The door to ask about next, or `None` when every door has been answered.
    pub fn next_door(&self) -> (door: Option<String>)
        requires
            self.wf(),
        ensures
            door is None <==> self.answered() == self.doors().len(),
            door matches Some(d) ==> d@ == self.doors()[self.answered() as int],
    {
        if self.next < self.doors.len() {
            Some(self.doors[self.next].clone())
        } else {
            None
        }
    }

    /// Keeps the rows the database answered for the door asked about.
    pub fn record(&mut self, latest: Vec<CountEntry>)
        requires
            old(self).wf(),
            old(self).answered() < old(self).doors().len(),
        ensures
            final(self).wf(),
            final(self).doors() == old(self).doors(),
            final(self).answered() == old(self).answered() + 1,
            final(self).found() == old(self).found() + latest@,
    {
        let next = self.next;
        let total = self.doors.len();
        assert(next < total);
        let mut latest = latest;
        self.found.append(&mut latest);
        self.next = next + 1;
    }

    /// The rows answered for all doors, in order.
    pub fn finish(self) -> (found: Vec<CountEntry>)
        requires
            self.wf(),
        ensures
            found@ == self.found(),
    {
        self.found
    }
}

/// The rows answered for the first `k` doors, one answer per door, concatenated.
pub open spec fn concatenated(answers: Seq<Seq<CountEntry>>, k: int) -> Seq<CountEntry>
    decreases k,
{
    if k <= 0 {
        Seq::empty()
    } else {
        concatenated(answers, k - 1) + answers[k - 1]
    }
}

/// Answering the doors in turn collects exactly their answers, in door order.
pub proof fn scan_collects_answers_in_order(
    start: LatestCountScan,
    next: LatestCountScan,
    answers: Seq<Seq<CountEntry>>,
    latest: Seq<CountEntry>,
)
    requires
        start.found() == concatenated(answers, start.answered() as int),
        answers.len() > start.answered(),
        latest == answers[start.answered() as int],
        next.answered() == start.answered() + 1,
        next.found() == start.found() + latest,
    ensures
        next.found() == concatenated(answers, next.answered() as int),
{
}

/// `next` is the scan `start` after keeping `latest` for the door asked about.
pub open spec fn is_record_step(start: LatestCountScan, next: LatestCountScan, latest: Seq<CountEntry>) -> bool {
    &&& next.doors() == start.doors()
    &&& next.answered() == start.answered() + 1
    &&& next.found() == start.found() + latest
}

/// In a run of a fresh scan, the `k`-th state has answered `k` doors and
/// holds the first `k` answers, concatenated in order.
pub proof fn scan_run_prefix(states: Seq<LatestCountScan>, answers: Seq<Seq<CountEntry>>, k: int)
    requires
        states.len() == answers.len() + 1,
        states[0].answered() == 0,
        states[0].found() == Seq::<CountEntry>::empty(),
        forall|i: int| 0 <= i < answers.len() ==> #[trigger] is_record_step(states[i], states[i + 1], answers[i]),
        0 <= k < states.len(),
    ensures
        states[k].answered() == k,
        states[k].found() == concatenated(answers, k),
        states[k].doors() == states[0].doors(),
    decreases k,
{
    if k > 0 {
        scan_run_prefix(states, answers, k - 1);
        assert(is_record_step(states[k - 1], states[k - 1 + 1], answers[k - 1]));
        scan_collects_answers_in_order(states[k - 1], states[k], answers, answers[k - 1]);
    }
}

/// A whole run of a fresh scan, one recorded answer per door until no door
/// is left, ends with every answer, concatenated in door order.
pub proof fn scan_run_collects_all_answers(states: Seq<LatestCountScan>, answers: Seq<Seq<CountEntry>>)
    requires
        states.len() == answers.len() + 1,
        states[0].answered() == 0,
        states[0].found() == Seq::<CountEntry>::empty(),
        forall|i: int| 0 <= i < answers.len() ==> #[trigger] is_record_step(states[i], states[i + 1], answers[i]),
        answers.len() == states[0].doors().len(),
    ensures
        states.last().answered() == states.last().doors().len(),
        states.last().found() == concatenated(answers, answers.len() as int),
{
    scan_run_prefix(states, answers, answers.len() as int);
}

} // verus!
