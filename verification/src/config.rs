//! The read-only view of the relay's configuration that request handling
//! needs: the shared secret and the event-to-command table.

use vstd::prelude::*;

use crate::bytes::bytes_eq;

verus! {

/// The configuration a request handler reads: a shared secret and a table
/// mapping event names to the command line each one triggers. Immutable for
/// the life of the process; whatever loads it hands the handlers plain bytes.
pub struct HookConfig {
    /// The shared secret that signs every delivery body.
    pub secret: Vec<u8>,
    /// Event name to command line, earliest entry first. A loader that built
    /// this from a keyed table has distinct names; lookup takes the first
    /// match either way.
    pub commands: Vec<(Vec<u8>, String)>,
}

/// The command for `event` among the entries of `commands` from index `i`
/// on: the first entry whose name equals `event`, if any.
pub open spec fn lookup_from(commands: Seq<(Seq<u8>, Seq<char>)>, event: Seq<u8>, i: int) -> Option<
    Seq<char>,
>
    decreases commands.len() - i,
{
    if i < 0 || i >= commands.len() {
        None
    } else if commands[i].0 == event {
        Some(commands[i].1)
    } else {
        lookup_from(commands, event, i + 1)
    }
}

/// The command configured for an event, if any: the first entry of the table
/// whose name equals the event.
pub open spec fn spec_command_for(commands: Seq<(Seq<u8>, Seq<char>)>, event: Seq<u8>) -> Option<
    Seq<char>,
> {
    lookup_from(commands, event, 0)
}

impl HookConfig {
    /// The event-to-command table as plain sequences.
    pub open spec fn commands_view(&self) -> Seq<(Seq<u8>, Seq<char>)> {
        self.commands@.map_values(|p: (Vec<u8>, String)| (p.0@, p.1@))
    }

    /// Find the command configured for `event`, or nothing when the event is
    /// absent from the table.
    pub fn command_for(&self, event: &[u8]) -> (r: Option<&String>)
        ensures
            match r {
                Some(c) => spec_command_for(self.commands_view(), event@) == Some(c@),
                None => spec_command_for(self.commands_view(), event@) is None,
            },
    {
        let n = self.commands.len();
        let mut i: usize = 0;
        while i < n
            invariant
                n == self.commands@.len(),
                i <= n,
                n == self.commands_view().len(),
                spec_command_for(self.commands_view(), event@) == lookup_from(
                    self.commands_view(),
                    event@,
                    i as int,
                ),
            decreases n - i,
        {
            let entry = &self.commands[i];
            proof {
                assert(self.commands_view()[i as int] == (entry.0@, entry.1@));
            }
            if bytes_eq(entry.0.as_slice(), event) {
                return Some(&entry.1);
            }
            i += 1;
        }
        None
    }
}

} // verus!
