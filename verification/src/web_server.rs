//! Finding, querying and stopping the web servers that listen on a machine.

use vstd::prelude::*;

verus! {

/// What a web server can be told over its socket. `C` is a configuration.
///
/// New instructions go to the end, so that servers of different versions agree on the others.
#[derive(Debug, Clone)]
pub enum InstructionForWebServer<C> {
    ShutdownWebServer,
    ConfigWrittenToDisk(C),
    QueryVersion,
}

/// A web server's version and the address that it is bound to.
#[derive(Debug, Clone)]
pub struct VersionInfo {
    pub version: String,
    pub ip: String,
    pub port: u16,
}

/// A web server's reply to an instruction.
#[derive(Debug, Clone)]
pub enum WebServerResponse {
    Version(VersionInfo),
}

/// An entry of the directory that holds the web servers' sockets. `P` is a path, `E` an error.
pub struct DirEntry<P, E> {
    pub path: P,
    /// Whether the entry is a socket, or why that is not known.
    pub is_socket: Result<bool, E>,
}

/// What went wrong with an entry of a listing, if anything did: it could not be read, or its kind
/// is not known.
pub open spec fn entry_failure<P, E>(entry: Result<DirEntry<P, E>, E>) -> Option<E> {
    match entry {
        Ok(found) => match found.is_socket {
            Ok(_) => None,
            Err(error) => Some(error),
        },
        Err(error) => Some(error),
    }
}

/// The entry is a socket.
pub open spec fn entry_is_socket<P, E>(entry: Result<DirEntry<P, E>, E>) -> bool {
    entry matches Ok(found) && found.is_socket == Ok::<bool, E>(true)
}

/// The paths of the sockets among the entries, in the order of the entries.
pub open spec fn socket_paths<P, E>(entries: Seq<Result<DirEntry<P, E>, E>>) -> Seq<P> {
    entries.filter(|entry: Result<DirEntry<P, E>, E>| entry_is_socket(entry)).map_values(
        |entry: Result<DirEntry<P, E>, E>| entry->Ok_0.path,
    )
}

/// The first entry with which something went wrong is the one at `at`, and `error` is what went
/// wrong.
pub open spec fn first_failure<P, E>(
    entries: Seq<Result<DirEntry<P, E>, E>>,
    at: int,
    error: E,
) -> bool {
    &&& 0 <= at < entries.len()
    &&& entry_failure(entries[at]) == Some(error)
    &&& forall|i: int| 0 <= i < at ==> entry_failure(#[trigger] entries[i]) is None
}

/// What a listing comes to: the paths of its sockets, or the first thing that went wrong.
pub open spec fn sockets_or_failure<P, E>(
    entries: Seq<Result<DirEntry<P, E>, E>>,
    sockets: Result<Vec<P>, E>,
) -> bool {
    match sockets {
        Ok(paths) => {
            &&& forall|i: int|
                0 <= i < entries.len() ==> entry_failure(#[trigger] entries[i]) is None
            &&& paths@ == socket_paths(entries)
        },
        Err(error) => exists|at: int| first_failure(entries, at, error),
    }
}

/// The sockets in the web servers' directory, from its listing: `None` where there is no such
/// directory, which has no sockets. The first thing that went wrong is the error.
pub fn discover_webserver_sockets<P, E>(
    listing: Option<Result<Vec<Result<DirEntry<P, E>, E>>, E>>,
) -> (sockets: Result<Vec<P>, E>)
    ensures
        match listing {
            None => sockets matches Ok(paths) && paths@ == Seq::<P>::empty(),
            Some(Err(error)) => sockets == Err::<Vec<P>, E>(error),
            Some(Ok(entries)) => sockets_or_failure(entries@, sockets),
        },
{
    match listing {
        None => Ok(Vec::new()),
        Some(Err(error)) => Err(error),
        Some(Ok(entries)) => collect_sockets(entries),
    }
}

/// The path of an entry that is a socket.
fn socket_path<P, E>(entry: Result<DirEntry<P, E>, E>) -> (path: Result<Option<P>, E>)
    ensures
        match path {
            Ok(Some(p)) => entry_is_socket(entry) && p == entry->Ok_0.path,
            Ok(None) => entry_failure(entry) is None && !entry_is_socket(entry),
            Err(error) => entry_failure(entry) == Some(error),
        },
{
    match entry {
        Ok(found) => match found.is_socket {
            Ok(true) => Ok(Some(found.path)),
            Ok(false) => Ok(None),
            Err(error) => Err(error),
        },
        Err(error) => Err(error),
    }
}

/// The sockets among the entries of a listing.
fn collect_sockets<P, E>(entries: Vec<Result<DirEntry<P, E>, E>>) -> (sockets: Result<Vec<P>, E>)
    ensures
        sockets_or_failure(entries@, sockets),
{
    let mut sockets: Vec<P> = Vec::new();
    let ghost all = entries@;
    for entry in iter: entries
        invariant
            entries@ == all,
            iter.seq() == all,
            forall|i: int|
                0 <= i < iter.index() ==> entry_failure(#[trigger] all[i]) is None,
            sockets@ == socket_paths(all.take(iter.index() as int)),
    {
        let ghost at = iter.index() as int;
        proof {
            assert(entry == all[at]);
            lemma_socket_paths_step(all, at);
        }
        match socket_path(entry) {
            Ok(Some(path)) => sockets.push(path),
            Ok(None) => {},
            Err(error) => {
                let failed: Result<Vec<P>, E> = Err(error);
                assert(first_failure(all, at, failed->Err_0));
                assert(sockets_or_failure(all, failed));
                return failed;
            },
        }
    }
    assert(all.take(all.len() as int) =~= all);
    Ok(sockets)
}

/// One more entry adds its path where it is a socket, and nothing else.
proof fn lemma_socket_paths_step<P, E>(entries: Seq<Result<DirEntry<P, E>, E>>, at: int)
    requires
        0 <= at < entries.len(),
    ensures
        socket_paths(entries.take(at + 1)) == if entry_is_socket(entries[at]) {
            socket_paths(entries.take(at)).push(entries[at]->Ok_0.path)
        } else {
            socket_paths(entries.take(at))
        },
{
    let keep = |entry: Result<DirEntry<P, E>, E>| entry_is_socket(entry);
    let longer = entries.take(at + 1);
    assert(longer.drop_last() =~= entries.take(at));
    assert(longer.last() == entries[at]);
    reveal(Seq::filter);
    assert(socket_paths(longer) =~= if keep(entries[at]) {
        socket_paths(entries.take(at)).push(entries[at]->Ok_0.path)
    } else {
        socket_paths(entries.take(at))
    });
}

/// An entry met on the way through the web servers' directory to shut them all down. `E` is an
/// error.
pub struct ServerEntry<E> {
    /// Whether the entry has a name that can be read as text.
    pub has_text_name: bool,
    /// The entry's path, where it can be read as text.
    pub path: Option<String>,
    /// Whether the entry is a socket, or why that is not known.
    pub is_socket: Result<bool, E>,
}

/// What an entry ends the way through the directory with, if it does: it could not be read, or it
/// has a text name and its kind is not known.
pub open spec fn shutdown_failure<E>(entry: Result<ServerEntry<E>, E>) -> Option<E> {
    match entry {
        Ok(found) => match found.is_socket {
            Err(error) if found.has_text_name => Some(error),
            _ => None,
        },
        Err(error) => Some(error),
    }
}

/// The path to connect to, where the entry is a socket with a text name. A path that cannot be
/// read as text is taken for an empty one.
pub open spec fn shutdown_target<E>(entry: Result<ServerEntry<E>, E>) -> Option<Seq<char>> {
    match entry {
        Ok(found) => if found.has_text_name && found.is_socket == Ok::<bool, E>(true) {
            match found.path {
                Some(path) => Some(path@),
                None => Some(Seq::empty()),
            }
        } else {
            None
        },
        Err(_) => None,
    }
}

/// Nothing goes wrong with any of the entries.
pub open spec fn unhindered<E>(entries: Seq<Result<ServerEntry<E>, E>>) -> bool {
    forall|i: int| 0 <= i < entries.len() ==> shutdown_failure(#[trigger] entries[i]) is None
}

/// The paths that are connected to on the way through a directory: those of the sockets among the
/// entries, one after the other, until something goes wrong.
pub open spec fn instructed<E>(entries: Seq<Result<ServerEntry<E>, E>>) -> Seq<Seq<char>>
    decreases entries.len(),
{
    if entries.len() == 0 {
        Seq::empty()
    } else {
        let before = entries.drop_last();
        match shutdown_target(entries.last()) {
            Some(path) if unhindered(before) => instructed(before).push(path),
            _ => instructed(before),
        }
    }
}

/// The way through the web servers' directory on which all of them are told to shut down, between
/// two entries. Sockets are told to, everything else is passed over, and the first thing that goes
/// wrong with an entry ends the way. Whether a server can be reached makes no difference to what
/// follows.
pub struct ShutdownWalk<E> {
    entries: Ghost<Seq<Result<ServerEntry<E>, E>>>,
    contacted: Ghost<Seq<Seq<char>>>,
}

/// The way through the directory while a socket is being connected to.
pub struct ShutdownContact<E> {
    walk: ShutdownWalk<E>,
}

/// The way through the directory while an instruction is being sent.
pub struct ShutdownSending<E> {
    walk: ShutdownWalk<E>,
}

/// What is done next about the entries of the directory.
pub enum ShutdownStep<E> {
    /// Goes on to the next entry.
    NextEntry(ShutdownWalk<E>),
    /// Connects to the socket at this path.
    Connect(ShutdownContact<E>, String),
    /// Ends the way through the directory with this result.
    Return(Result<(), E>),
}

/// What is done after an attempt to connect. `C` is a configuration.
pub enum ContactStep<C, E> {
    /// Goes on to the next entry.
    NextEntry(ShutdownWalk<E>),
    /// Sends the instruction over the connection.
    Send(ShutdownSending<E>, InstructionForWebServer<C>),
}

impl<E> ShutdownWalk<E> {
    /// The entries met so far.
    pub closed spec fn entries(self) -> Seq<Result<ServerEntry<E>, E>> {
        self.entries@
    }

    /// The paths connected to so far.
    pub closed spec fn contacted(self) -> Seq<Seq<char>> {
        self.contacted@
    }

    #[verifier::type_invariant]
    spec fn is_on_its_way(self) -> bool {
        &&& unhindered(self.entries@)
        &&& self.contacted@ == instructed(self.entries@)
    }

    /// Starts, where the directory can be listed.
    pub fn start(listing: Result<(), E>) -> (walk: Result<ShutdownWalk<E>, E>)
        ensures
            match listing {
                Ok(_) => walk matches Ok(started) && started.entries() == Seq::<
                    Result<ServerEntry<E>, E>,
                >::empty() && started.contacted() == Seq::<Seq<char>>::empty(),
                Err(error) => walk == Err::<ShutdownWalk<E>, E>(error),
            },
    {
        match listing {
            Ok(_) => Ok(
                ShutdownWalk { entries: Ghost(Seq::empty()), contacted: Ghost(Seq::empty()) },
            ),
            Err(error) => Err(error),
        }
    }

    /// Decides what is done about an entry, or about the end of the listing.
    pub fn step(self, entry: Option<Result<ServerEntry<E>, E>>) -> (step: ShutdownStep<E>)
        ensures
            match entry {
                None => step == ShutdownStep::<E>::Return(Ok(())),
                Some(met) => match step {
                    ShutdownStep::Connect(contact, path) => {
                        &&& shutdown_target(met) == Some(path@)
                        &&& contact.walk().entries() == self.entries().push(met)
                        &&& contact.walk().contacted() == self.contacted().push(path@)
                        &&& contact.walk().contacted() == instructed(contact.walk().entries())
                    },
                    ShutdownStep::NextEntry(walk) => {
                        &&& shutdown_failure(met) is None
                        &&& shutdown_target(met) is None
                        &&& walk.entries() == self.entries().push(met)
                        &&& walk.contacted() == self.contacted()
                        &&& walk.contacted() == instructed(walk.entries())
                    },
                    ShutdownStep::Return(result) => {
                        &&& result matches Err(error)
                        &&& shutdown_failure(met) == Some(error)
                    },
                },
            },
    {
        proof {
            use_type_invariant(&self);
        }
        let ghost met = entry;
        let found = match entry {
            None => return ShutdownStep::Return(Ok(())),
            Some(Err(error)) => return ShutdownStep::Return(Err(error)),
            Some(Ok(found)) => found,
        };
        let ghost longer = self.entries@.push(met->0);
        assert(longer.drop_last() =~= self.entries@);
        if !found.has_text_name {
            return ShutdownStep::NextEntry(
                ShutdownWalk { entries: Ghost(longer), contacted: Ghost(self.contacted@) },
            );
        }
        match found.is_socket {
            Ok(true) => {
                let path = match found.path {
                    Some(path) => path,
                    None => String::new(),
                };
                assert(shutdown_target(met->0)->0 =~= path@);
                let walk = ShutdownWalk {
                    entries: Ghost(longer),
                    contacted: Ghost(self.contacted@.push(path@)),
                };
                ShutdownStep::Connect(ShutdownContact { walk }, path)
            },
            Ok(false) => ShutdownStep::NextEntry(
                ShutdownWalk { entries: Ghost(longer), contacted: Ghost(self.contacted@) },
            ),
            Err(error) => ShutdownStep::Return(Err(error)),
        }
    }
}

impl<E> ShutdownContact<E> {
    /// The way that goes on afterwards.
    pub closed spec fn walk(self) -> ShutdownWalk<E> {
        self.walk
    }

    /// Decides what is done after the attempt to connect: a server that was reached is told to
    /// shut down, and one that was not is passed over.
    pub fn connected<C>(self, connected: bool) -> (step: ContactStep<C, E>)
        ensures
            match step {
                ContactStep::Send(sending, instruction) => {
                    &&& connected
                    &&& sending.walk() == self.walk()
                    &&& instruction == InstructionForWebServer::<C>::ShutdownWebServer
                },
                ContactStep::NextEntry(walk) => !connected && walk == self.walk(),
            },
    {
        if connected {
            ContactStep::Send(
                ShutdownSending { walk: self.walk },
                InstructionForWebServer::ShutdownWebServer,
            )
        } else {
            ContactStep::NextEntry(self.walk)
        }
    }
}

impl<E> ShutdownSending<E> {
    /// The way that goes on afterwards.
    pub closed spec fn walk(self) -> ShutdownWalk<E> {
        self.walk
    }

    /// Goes on after the instruction was sent, or could not be.
    pub fn sent(self, _sent: bool) -> (walk: ShutdownWalk<E>)
        ensures
            walk == self.walk(),
    {
        self.walk
    }
}

/// The steps of asking a web server for its version. A server takes one instruction per
/// connection, and the end of what it reads tells it where the instruction ends.
#[derive(Debug, Clone, Copy, PartialEq, Eq, Structural)]
pub enum QueryStage {
    /// Connects to the server's socket.
    Connect,
    /// Bounds how long a read may take.
    LimitReads,
    /// Bounds how long a write may take.
    LimitWrites,
    /// Sends the instruction.
    SendInstruction,
    /// Closes the side of the connection that writes, so that the server sees the end.
    CloseWriteSide,
    /// Reads until the server closes its side, and decodes what was read.
    ReadResponse,
}

impl QueryStage {
    /// The stage after this one, if it is not the last.
    pub open spec fn successor(self) -> Option<QueryStage> {
        match self {
            QueryStage::Connect => Some(QueryStage::LimitReads),
            QueryStage::LimitReads => Some(QueryStage::LimitWrites),
            QueryStage::LimitWrites => Some(QueryStage::SendInstruction),
            QueryStage::SendInstruction => Some(QueryStage::CloseWriteSide),
            QueryStage::CloseWriteSide => Some(QueryStage::ReadResponse),
            QueryStage::ReadResponse => None,
        }
    }

    /// The stage that a query begins with.
    pub fn first() -> (stage: QueryStage)
        ensures
            stage == QueryStage::Connect,
    {
        QueryStage::Connect
    }

    /// The instruction that is written in this stage.
    pub fn instruction<C>(self) -> (instruction: Option<InstructionForWebServer<C>>)
        ensures
            instruction == if self is SendInstruction {
                Some(InstructionForWebServer::<C>::QueryVersion)
            } else {
                None
            },
    {
        match self {
            QueryStage::SendInstruction => Some(InstructionForWebServer::QueryVersion),
            _ => None,
        }
    }

    /// The stage after this one, `None` after the last; what goes wrong in a stage ends the query.
    pub fn next<E>(self, outcome: Result<(), E>) -> (stage: Result<Option<QueryStage>, E>)
        ensures
            stage == match outcome {
                Ok(_) => Ok::<Option<QueryStage>, E>(self.successor()),
                Err(error) => Err(error),
            },
    {
        match outcome {
            Ok(_) => Ok(
                match self {
                    QueryStage::Connect => Some(QueryStage::LimitReads),
                    QueryStage::LimitReads => Some(QueryStage::LimitWrites),
                    QueryStage::LimitWrites => Some(QueryStage::SendInstruction),
                    QueryStage::SendInstruction => Some(QueryStage::CloseWriteSide),
                    QueryStage::CloseWriteSide => Some(QueryStage::ReadResponse),
                    QueryStage::ReadResponse => None,
                },
            ),
            Err(error) => Err(error),
        }
    }
}

/// What a query for a web server's version comes to: what the response says, or what went wrong
/// in getting one.
pub fn query_webserver_version<E>(response: Result<WebServerResponse, E>) -> (info: Result<
    VersionInfo,
    E,
>)
    ensures
        match response {
            Ok(WebServerResponse::Version(version)) => info == Ok::<VersionInfo, E>(version),
            Err(error) => info == Err::<VersionInfo, E>(error),
        },
{
    match response {
        Ok(WebServerResponse::Version(info)) => Ok(info),
        Err(error) => Err(error),
    }
}

} // verus!
