//! The protocol dispatcher's command table and inbound-request routing.
//!
//! One logical connection multiplexes requests, responses, events and
//! streams. The table below maps a command name to the identifier of the
//! handler the application registered for it; registering a name again
//! replaces the previous handler. A request naming an unregistered
//! command is answered with a failure response and never crashes the
//! processing loop.

use vstd::prelude::*;

use crate::protocol::{Request, Response};

verus! {

/// The error text of a response to an unregistered command.
pub const UNKNOWN_COMMAND_ERROR: &'static str = "unknown command";

/// The command table of one session: command name to handler identifier,
/// last registration winning. Rebuilt from empty on every reconnect.
pub struct HandlerRegistry {
    entries: Vec<(String, u64)>,
}

/// The table that a sequence of registrations builds up: later entries
/// shadow earlier ones with the same name.
pub open spec fn spec_table_of(entries: Seq<(String, u64)>) -> Map<Seq<char>, u64>
    decreases entries.len(),
{
    if entries.len() == 0 {
        Map::empty()
    } else {
        spec_table_of(entries.drop_last()).insert(entries.last().0@, entries.last().1)
    }
}

impl View for HandlerRegistry {
    type V = Map<Seq<char>, u64>;

    closed spec fn view(&self) -> Map<Seq<char>, u64> {
        spec_table_of(self.entries@)
    }
}

impl HandlerRegistry {
    /// A fresh, empty table, as built at each session initialization.
    pub fn new() -> (r: HandlerRegistry)
        ensures
            r@ == Map::<Seq<char>, u64>::empty(),
    {
        HandlerRegistry { entries: Vec::new() }
    }

    /// Register `handler` for `name`. Registering the same name again
    /// replaces the previous handler — last write wins, no duplicate
    /// detection.
    pub fn add_command(&mut self, name: String, handler: u64)
        ensures
            final(self)@ == old(self)@.insert(name@, handler),
    {
        let ghost before = self.entries@;
        self.entries.push((name, handler));
        proof {
            assert(self.entries@.drop_last() =~= before);
        }
    }

    /// Look the handler registered for `name` up.
    pub fn lookup(&self, name: &str) -> (r: Option<u64>)
        ensures
            self@.contains_key(name@) ==> r == Some(self@[name@]),
            !self@.contains_key(name@) ==> r is None,
    {
        let key = name.to_owned();
        let mut i = self.entries.len();
        proof {
            assert(self.entries@.take(i as int) =~= self.entries@);
        }
        while i > 0
            invariant
                i <= self.entries@.len(),
                key@ == name@,
                self@.contains_key(name@) == spec_table_of(self.entries@.take(i as int)).contains_key(name@),
                self@.contains_key(name@) ==> self@[name@] == spec_table_of(
                    self.entries@.take(i as int),
                )[name@],
            decreases i,
        {
            i = i - 1;
            let ghost prefix = self.entries@.take(i + 1);
            proof {
                assert(prefix.drop_last() =~= self.entries@.take(i as int));
                assert(prefix.last() == self.entries@[i as int]);
            }
            if self.entries[i].0 == key {
                return Some(self.entries[i].1);
            }
        }
        proof {
            assert(self.entries@.take(0) =~= Seq::<(String, u64)>::empty());
        }
        None
    }
}

/// Build the command table of a fresh session: every command of the
/// protocol registered, under the handler identifiers the application
/// chose. Run at each initialization — no registration survives a
/// disconnect.
pub fn standard_registry(
    get_version: u64,
    run_shell: u64,
    start_play: u64,
    stop_play: u64,
    start_recording: u64,
    stop_recording: u64,
) -> (r: HandlerRegistry)
    ensures
        r@ == Map::<Seq<char>, u64>::empty().insert("get_version"@, get_version).insert(
            "run_shell"@,
            run_shell,
        ).insert("start_play"@, start_play).insert("stop_play"@, stop_play).insert(
            "start_recording"@,
            start_recording,
        ).insert("stop_recording"@, stop_recording),
{
    let mut r = HandlerRegistry::new();
    r.add_command("get_version".to_owned(), get_version);
    r.add_command("run_shell".to_owned(), run_shell);
    r.add_command("start_play".to_owned(), start_play);
    r.add_command("stop_play".to_owned(), stop_play);
    r.add_command("start_recording".to_owned(), start_recording);
    r.add_command("stop_recording".to_owned(), stop_recording);
    r
}

/// Where one inbound request goes: to the registered handler, or straight
/// back out as a response.
pub enum RequestRoute {
    Invoke { handler: u64 },
    Reply { response: Response },
}

/// Route an inbound request by its command name. A registered command is
/// handed to its handler; an unregistered one is answered with a failure
/// response signalling the unknown command, and nothing else happens.
pub fn route_request(registry: &HandlerRegistry, request: &Request) -> (r: RequestRoute)
    ensures
        registry@.contains_key(request.command@) ==> r == (RequestRoute::Invoke {
            handler: registry@[request.command@],
        }),
        !registry@.contains_key(request.command@) ==> (r matches RequestRoute::Reply {
            response,
        } && !response.success && response.data is None && (response.error matches Some(e) && e@
            == UNKNOWN_COMMAND_ERROR@)),
{
    match registry.lookup(request.command.as_str()) {
        Some(handler) => RequestRoute::Invoke { handler },
        None => RequestRoute::Reply { response: Response::failure(UNKNOWN_COMMAND_ERROR) },
    }
}

} // verus!
