use vstd::prelude::*;

use crate::error::ParseError;
use crate::text::push_char;
use crate::decode::{fits, json_of};
use crate::json::{json_view, Json, MAX_DEPTH};
use crate::thing::{thing_matches, thing_ok, Thing};

verus! {

/// The service type under which Things announce themselves.
pub const SERVICE_TYPE: &'static str = "_webthing._tcp.local.";

/// How long one wait for the next event may last, in milliseconds.
pub const WAIT_INTERVAL_MS: u64 = 1000;

/// An event of the discovery listener, as the caller hands it over.
#[derive(Clone, Debug)]
pub enum DiscoveryEvent {
    /// A service was resolved: its name, its addresses and its port.
    Resolved { name: String, addresses: Vec<String>, port: u16 },
    /// Any other event of the listener.
    Other,
    /// A wait passed with no event.
    Timeout,
}

/// What the caller is to do next.
#[derive(Clone, Debug, PartialEq)]
pub enum Action {
    /// Fetch the document of `device` at `url` and hand the outcome to
    /// `on_fetched`.
    Fetch { device: String, url: String },
    /// Wait for the next event.
    Wait,
    /// The budget is spent: stop and call `finish`.
    Finish,
}

/// Why the document of one device could not be had.
#[derive(Clone, Debug, PartialEq)]
pub enum DeviceError {
    /// The service was resolved without any address.
    NoAddress,
    /// Retrieving the document failed, for the reason given.
    Fetch(String),
    /// The document could not be normalized.
    Parse(ParseError),
}

/// What a discovery call returns: every Thing that was retrieved and
/// normalized, and for every other device the error that it met.
#[derive(Debug)]
pub struct DiscoveryReport {
    pub things: Vec<Thing>,
    pub failures: Vec<(String, DeviceError)>,
}

/// The state of one discovery call.
///
/// The caller waits for listener events, at most `WAIT_INTERVAL_MS` at a
/// time, and hands each one to `on_event` with the time elapsed since the
/// call started; it performs the action returned, and stops once that action
/// is `Finish`. Without a budget the call runs until the caller stops.
#[derive(Debug)]
pub struct DiscoveryRun {
    pub budget_ms: Option<u64>,
    pub elapsed_ms: u64,
    pub things: Vec<Thing>,
    pub failures: Vec<(String, DeviceError)>,
}

/// The decimal digit of `d`.
pub open spec fn digit_char(d: nat) -> char {
    if d == 0 {
        '0'
    } else if d == 1 {
        '1'
    } else if d == 2 {
        '2'
    } else if d == 3 {
        '3'
    } else if d == 4 {
        '4'
    } else if d == 5 {
        '5'
    } else if d == 6 {
        '6'
    } else if d == 7 {
        '7'
    } else if d == 8 {
        '8'
    } else {
        '9'
    }
}

/// The decimal text of `n`, without leading zeros.
pub open spec fn decimal(n: nat) -> Seq<char>
    decreases n,
{
    if n < 10 {
        seq![digit_char(n)]
    } else {
        decimal(n / 10).push(digit_char(n % 10))
    }
}

/// Where a device's Thing Description is retrieved from.
pub open spec fn device_url(address: Seq<char>, port: u16) -> Seq<char> {
    "http://"@ + address + ":"@ + decimal(port as nat) + "/"@
}

/// Whether a budget of `budget` is spent after `elapsed` milliseconds.
pub open spec fn budget_spent(budget: Option<u64>, elapsed: u64) -> bool {
    match budget {
        Some(b) => elapsed >= b,
        None => false,
    }
}

fn digit(d: u64) -> (r: char)
    requires
        d < 10,
    ensures
        r == digit_char(d as nat),
{
    if d == 0 {
        '0'
    } else if d == 1 {
        '1'
    } else if d == 2 {
        '2'
    } else if d == 3 {
        '3'
    } else if d == 4 {
        '4'
    } else if d == 5 {
        '5'
    } else if d == 6 {
        '6'
    } else if d == 7 {
        '7'
    } else if d == 8 {
        '8'
    } else {
        '9'
    }
}

/// Appends the decimal text of `n`.
pub fn push_decimal(s: &mut String, n: u64)
    ensures
        final(s)@ == old(s)@ + decimal(n as nat),
    decreases n,
{
    if n >= 10 {
        push_decimal(s, n / 10);
    }
    push_char(s, digit(n % 10));
    proof {
        if n >= 10 {
            assert(final(s)@ =~= old(s)@ + decimal(n as nat));
        } else {
            assert(final(s)@ =~= old(s)@ + decimal(n as nat));
        }
    }
}

/// The URL of a device's Thing Description: `http://{address}:{port}/`.
pub fn url_of(address: &str, port: u16) -> (r: String)
    ensures
        r@ == device_url(address@, port),
{
    let mut url = String::from_str("http://");
    url.append(address);
    url.append(":");
    push_decimal(&mut url, port as u64);
    url.append("/");
    proof {
        assert(url@ =~= device_url(address@, port));
    }
    url
}

/// How a fetched document that reads as `j` is recorded: as a Thing read
/// from `j` where `j` is a well-formed Thing Description, else as a parse
/// failure; the rest is left as it was.
pub open spec fn kept_as(
    j: Json,
    things0: Seq<Thing>,
    failures0: Seq<(String, DeviceError)>,
    things: Seq<Thing>,
    failures: Seq<(String, DeviceError)>,
) -> bool {
    if thing_ok(j) {
        &&& things.len() == things0.len() + 1
        &&& things.drop_last() == things0
        &&& thing_matches(things.last(), j)
        &&& failures == failures0
    } else {
        &&& things == things0
        &&& failures.len() == failures0.len() + 1
        &&& failures.drop_last() == failures0
        &&& failures.last().1 is Parse
    }
}

impl DiscoveryRun {
    /// A call with a budget of `budget_ms` milliseconds, or none.
    pub fn new(budget_ms: Option<u64>) -> (r: DiscoveryRun)
        ensures
            r.budget_ms == budget_ms,
            r.elapsed_ms == 0,
            r.things@.len() == 0,
            r.failures@.len() == 0,
    {
        DiscoveryRun { budget_ms, elapsed_ms: 0, things: Vec::new(), failures: Vec::new() }
    }

    /// Whether the budget is spent.
    pub fn is_done(&self) -> (r: bool)
        ensures
            r == budget_spent(self.budget_ms, self.elapsed_ms),
    {
        match self.budget_ms {
            Some(b) => self.elapsed_ms >= b,
            None => false,
        }
    }

    /// Takes the next event, `elapsed_ms` after the call started.
    ///
    /// Once the budget is spent no event is acted on. Before that, a resolved
    /// service is fetched from its first address, one resolved without an
    /// address is recorded as a failure, and every other event is passed
    /// over.
    pub fn on_event(&mut self, event: DiscoveryEvent, elapsed_ms: u64) -> (r: Action)
        ensures
            final(self).budget_ms == old(self).budget_ms,
            final(self).elapsed_ms == if elapsed_ms > old(self).elapsed_ms {
                elapsed_ms
            } else {
                old(self).elapsed_ms
            },
            final(self).things@ == old(self).things@,
            budget_spent(final(self).budget_ms, final(self).elapsed_ms) ==> r == Action::Finish
                && final(self).failures@ == old(self).failures@,
            !budget_spent(final(self).budget_ms, final(self).elapsed_ms) ==> match event {
                DiscoveryEvent::Resolved { name, addresses, port } => if addresses@.len() > 0 {
                    &&& r matches Action::Fetch { device, url }
                    &&& device@ == name@
                    &&& url@ == device_url(addresses@[0]@, port)
                    &&& final(self).failures@ == old(self).failures@
                } else {
                    &&& r == Action::Wait
                    &&& final(self).failures@.len() == old(self).failures@.len() + 1
                    &&& final(self).failures@.drop_last() == old(self).failures@
                    &&& final(self).failures@.last().0@ == name@
                    &&& final(self).failures@.last().1 == DeviceError::NoAddress
                },
                _ => r == Action::Wait && final(self).failures@ == old(self).failures@,
            },
    {
        if elapsed_ms > self.elapsed_ms {
            self.elapsed_ms = elapsed_ms;
        }
        if self.is_done() {
            return Action::Finish;
        }
        match event {
            DiscoveryEvent::Resolved { name, addresses, port } => {
                if addresses.len() > 0 {
                    let url = url_of(addresses[0].as_str(), port);
                    Action::Fetch { device: name, url }
                } else {
                    self.failures.push((name, DeviceError::NoAddress));
                    Action::Wait
                }
            },
            _ => Action::Wait,
        }
    }

    /// Takes the outcome of fetching the document of `device`: its text, or
    /// why it could not be had.
    ///
    /// A document is normalized and kept; a failure to fetch or to normalize
    /// it is recorded against the device. No outcome is dropped.
    pub fn on_fetched(&mut self, device: String, outcome: Result<String, String>)
        ensures
            final(self).budget_ms == old(self).budget_ms,
            final(self).elapsed_ms == old(self).elapsed_ms,
            final(self).things@.len() + final(self).failures@.len() == old(self).things@.len()
                + old(self).failures@.len() + 1,
            final(self).things@.len() >= old(self).things@.len(),
            final(self).failures@.len() >= old(self).failures@.len(),
            final(self).things@.subrange(0, old(self).things@.len() as int) == old(self).things@,
            final(self).failures@.subrange(0, old(self).failures@.len() as int) == old(
                self,
            ).failures@,
            outcome is Err ==> {
                &&& final(self).things@ == old(self).things@
                &&& final(self).failures@.last().0@ == device@
                &&& final(self).failures@.last().1 == DeviceError::Fetch(outcome->Err_0)
            },
            outcome is Ok && final(self).failures@.len() > old(self).failures@.len() ==> {
                &&& final(self).failures@.last().0@ == device@
                &&& final(self).failures@.last().1 is Parse
            },
            outcome is Ok && json_of(outcome->Ok_0@) is None ==> {
                &&& final(self).things@ == old(self).things@
                &&& final(self).failures@.last().1 == DeviceError::Parse(ParseError::Syntax)
            },
            outcome is Ok && json_of(outcome->Ok_0@) is Some && fits(
                json_of(outcome->Ok_0@)->Some_0,
                MAX_DEPTH as nat,
            ) ==> exists|j: Json|
                #![trigger json_view(j)]
                json_view(j) == json_of(outcome->Ok_0@)->Some_0 && kept_as(
                    j,
                    old(self).things@,
                    old(self).failures@,
                    final(self).things@,
                    final(self).failures@,
                ),
    {
        match outcome {
            Ok(text) => {
                let parsed = Thing::from_text(text.as_str());
                let ghost read = json_of(text@);
                let ghost j = choose|j: Json|
                    json_view(j) == read->Some_0 && (parsed is Ok <==> thing_ok(j)) && (parsed is Ok
                        ==> thing_matches(parsed->Ok_0, j));
                match parsed {
                    Ok(t) => {
                        self.things.push(t);
                        proof {
                            assert(self.failures@.subrange(0, self.failures@.len() as int)
                                =~= self.failures@);
                            assert(self.things@.drop_last() =~= old(self).things@);
                        }
                    },
                    Err(e) => {
                        self.failures.push((device, DeviceError::Parse(e)));
                        proof {
                            assert(self.things@.subrange(0, self.things@.len() as int)
                                =~= self.things@);
                            assert(self.failures@.drop_last() =~= old(self).failures@);
                        }
                    },
                }
                proof {
                    if read is Some && fits(read->Some_0, MAX_DEPTH as nat) {
                        assert(kept_as(
                            j,
                            old(self).things@,
                            old(self).failures@,
                            self.things@,
                            self.failures@,
                        ));
                    }
                }
            },
            Err(reason) => {
                self.failures.push((device, DeviceError::Fetch(reason)));
                proof {
                    assert(self.things@.subrange(0, self.things@.len() as int) =~= self.things@);
                }
            },
        }
    }

    /// Ends the call: every Thing retrieved and every failure, in order.
    pub fn finish(self) -> (r: DiscoveryReport)
        ensures
            r.things@ == self.things@,
            r.failures@ == self.failures@,
    {
        DiscoveryReport { things: self.things, failures: self.failures }
    }
}

} // verus!
