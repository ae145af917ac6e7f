//! The store: one live connection and the fixed set of statements prepared on it.

use vstd::prelude::*;
use vstd::string::*;
use tokio_postgres::Client;
use tokio_postgres::Statement;

verus! {

/// `tokio_postgres::Client`, the handle of the live connection. Nothing is
/// claimed of it: the store only carries it.
#[verifier::external_type_specification]
#[verifier::external_body]
pub struct ExClient(tokio_postgres::Client);

/// `tokio_postgres::Statement`, a statement prepared on the connection. Nothing
/// is claimed of it: the store only carries it.
#[verifier::external_type_specification]
#[verifier::external_body]
pub struct ExStatement(tokio_postgres::Statement);

/// The statements of the store, in the order in which they are prepared.
#[derive(Debug, Clone, Copy, PartialEq, Eq, Structural)]
pub enum StatementKind {
    GetInbox,
    GetOutbox,
    CreateMessage,
    AddSender,
    AddReciever,
    CreateActor,
    DeleteActor,
}

/// How many statements the store prepares.
pub const STATEMENT_COUNT: usize = 7;

impl StatementKind {
    /// The place of this statement in the order of preparation.
    pub open spec fn position(self) -> nat {
        match self {
            StatementKind::GetInbox => 0,
            StatementKind::GetOutbox => 1,
            StatementKind::CreateMessage => 2,
            StatementKind::AddSender => 3,
            StatementKind::AddReciever => 4,
            StatementKind::CreateActor => 5,
            StatementKind::DeleteActor => 6,
        }
    }

    /// The statement that is prepared at place `i`.
    pub open spec fn at(i: nat) -> StatementKind
        recommends
            i < STATEMENT_COUNT,
    {
        if i == 0 {
            StatementKind::GetInbox
        } else if i == 1 {
            StatementKind::GetOutbox
        } else if i == 2 {
            StatementKind::CreateMessage
        } else if i == 3 {
            StatementKind::AddSender
        } else if i == 4 {
            StatementKind::AddReciever
        } else if i == 5 {
            StatementKind::CreateActor
        } else {
            StatementKind::DeleteActor
        }
    }

    /// The text of this statement.
    pub open spec fn text(self) -> Seq<char> {
        match self {
            StatementKind::GetInbox =>
                "SELECT * FROM messages WHERE id IN (SELECT message FROM messages_recieved WHERE actor = $1) ORDER BY ctime;"@,
            StatementKind::GetOutbox =>
                "SELECT * FROM messages WHERE id IN (SELECT message FROM messages_sent WHERE actor = $1) ORDER BY ctime;"@,
            StatementKind::CreateMessage =>
                "INSERT INTO messages (content, ctime, mtime) VALUES ($1, $2, $2) RETURNING id;"@,
            StatementKind::AddSender => "INSERT INTO messages_sent (actor, message) VALUES ($2, $1);"@,
            StatementKind::AddReciever =>
                "INSERT INTO messages_recieved (actor, message) VALUES ($2, $1);"@,
            StatementKind::CreateActor => "INSERT INTO actors (actortype, id) VALUES ($1, $2);"@,
            StatementKind::DeleteActor => "DELETE FROM actors WHERE actortype = $2 AND id = $1;"@,
        }
    }

    /// The place of this statement in the order of preparation.
    pub fn index(self) -> (i: usize)
        ensures
            i == self.position(),
            i < STATEMENT_COUNT,
            StatementKind::at(i as nat) == self,
    {
        match self {
            StatementKind::GetInbox => 0,
            StatementKind::GetOutbox => 1,
            StatementKind::CreateMessage => 2,
            StatementKind::AddSender => 3,
            StatementKind::AddReciever => 4,
            StatementKind::CreateActor => 5,
            StatementKind::DeleteActor => 6,
        }
    }

    /// The statement prepared at place `i`, if there is one.
    pub fn from_index(i: usize) -> (kind: Option<StatementKind>)
        ensures
            i < STATEMENT_COUNT ==> kind == Some(StatementKind::at(i as nat)),
            i < STATEMENT_COUNT ==> StatementKind::at(i as nat).position() == i,
            i >= STATEMENT_COUNT ==> kind.is_none(),
    {
        if i == 0 {
            Some(StatementKind::GetInbox)
        } else if i == 1 {
            Some(StatementKind::GetOutbox)
        } else if i == 2 {
            Some(StatementKind::CreateMessage)
        } else if i == 3 {
            Some(StatementKind::AddSender)
        } else if i == 4 {
            Some(StatementKind::AddReciever)
        } else if i == 5 {
            Some(StatementKind::CreateActor)
        } else if i == 6 {
            Some(StatementKind::DeleteActor)
        } else {
            None
        }
    }

    /// The text of this statement, as it is sent to be prepared.
    pub fn sql(self) -> (text: &'static str)
        ensures
            text@ == self.text(),
    {
        match self {
            StatementKind::GetInbox =>
                "SELECT * FROM messages WHERE id IN (SELECT message FROM messages_recieved WHERE actor = $1) ORDER BY ctime;",
            StatementKind::GetOutbox =>
                "SELECT * FROM messages WHERE id IN (SELECT message FROM messages_sent WHERE actor = $1) ORDER BY ctime;",
            StatementKind::CreateMessage =>
                "INSERT INTO messages (content, ctime, mtime) VALUES ($1, $2, $2) RETURNING id;",
            StatementKind::AddSender => "INSERT INTO messages_sent (actor, message) VALUES ($2, $1);",
            StatementKind::AddReciever =>
                "INSERT INTO messages_recieved (actor, message) VALUES ($2, $1);",
            StatementKind::CreateActor => "INSERT INTO actors (actortype, id) VALUES ($1, $2);",
            StatementKind::DeleteActor => "DELETE FROM actors WHERE actortype = $2 AND id = $1;",
        }
    }
}

/// The address of the database for a user: the local database `graft`, without TLS.
pub open spec fn url_of(user_name: Seq<char>) -> Seq<char> {
    "postgres://"@ + user_name + "@localhost/graft"@
}

/// The address to connect to for `user_name`.
pub fn connection_url(user_name: &str) -> (url: String)
    ensures
        url@ == url_of(user_name@),
{
    let mut url = String::from_str("postgres://");
    url.append(user_name);
    url.append("@localhost/graft");
    url
}

/// The prepared statements of the store.
pub struct Statements {
    pub get_inbox: Statement,
    pub get_outbox: Statement,
    pub create_message: Statement,
    pub add_sender: Statement,
    pub add_reciever: Statement,
    pub create_actor: Statement,
    pub delete_actor: Statement,
}

impl Statements {
    /// The prepared statement of a kind.
    pub open spec fn of(&self, kind: StatementKind) -> Statement {
        match kind {
            StatementKind::GetInbox => self.get_inbox,
            StatementKind::GetOutbox => self.get_outbox,
            StatementKind::CreateMessage => self.create_message,
            StatementKind::AddSender => self.add_sender,
            StatementKind::AddReciever => self.add_reciever,
            StatementKind::CreateActor => self.create_actor,
            StatementKind::DeleteActor => self.delete_actor,
        }
    }

    /// The prepared statement of a kind.
    pub fn statement(&self, kind: StatementKind) -> (s: &Statement)
        ensures
            *s == self.of(kind),
    {
        match kind {
            StatementKind::GetInbox => &self.get_inbox,
            StatementKind::GetOutbox => &self.get_outbox,
            StatementKind::CreateMessage => &self.create_message,
            StatementKind::AddSender => &self.add_sender,
            StatementKind::AddReciever => &self.add_reciever,
            StatementKind::CreateActor => &self.create_actor,
            StatementKind::DeleteActor => &self.delete_actor,
        }
    }
}

/// Why the store was not set up.
#[derive(Debug)]
pub enum InitFault<E> {
    /// The outcomes handed in are not one for each statement.
    WrongCount(usize),
    /// A statement was not prepared: the first such in the order of
    /// preparation, with the fault that came back for it.
    NotPrepared(StatementKind, E),
}

/// Every statement was prepared: there is one outcome for each, and each is a
/// prepared statement.
pub open spec fn all_prepared<E>(prepared: Seq<Result<Statement, E>>) -> bool {
    &&& prepared.len() == STATEMENT_COUNT
    &&& forall|i: int| 0 <= i < prepared.len() ==> (#[trigger] prepared[i]) is Ok
}

/// `result` is what setting up makes of the outcomes `prepared`: the full set
/// where every statement was prepared, each in its place; else the fault of the
/// first that was not, and never a part of the set.
pub open spec fn assembled<E>(
    prepared: Seq<Result<Statement, E>>,
    result: Result<Statements, InitFault<E>>,
) -> bool {
    match result {
        Ok(set) => {
            &&& prepared.len() == STATEMENT_COUNT
            &&& forall|kind: StatementKind|
                prepared[kind.position() as int] == Ok::<Statement, E>(#[trigger] set.of(kind))
        },
        Err(InitFault::WrongCount(found)) => {
            &&& prepared.len() != STATEMENT_COUNT
            &&& found == prepared.len()
        },
        Err(InitFault::NotPrepared(kind, cause)) => {
            &&& prepared.len() == STATEMENT_COUNT
            &&& prepared[kind.position() as int] == Err::<Statement, E>(cause)
            &&& forall|i: int| 0 <= i < kind.position() ==> (#[trigger] prepared[i]) is Ok
        },
    }
}

impl Statements {
    /// Lays out the statements from the outcomes of preparing them, which come
    /// in the order of preparation.
    pub fn assemble<E>(prepared: Vec<Result<Statement, E>>) -> (result: Result<
        Statements,
        InitFault<E>,
    >)
        ensures
            assembled(prepared@, result),
            result is Ok <==> all_prepared(prepared@),
    {
        let mut rest = prepared;
        let found = rest.len();
        if found != STATEMENT_COUNT {
            return Err(InitFault::WrongCount(found));
        }
        let r6 = rest.pop().unwrap();
        let r5 = rest.pop().unwrap();
        let r4 = rest.pop().unwrap();
        let r3 = rest.pop().unwrap();
        let r2 = rest.pop().unwrap();
        let r1 = rest.pop().unwrap();
        let r0 = rest.pop().unwrap();
        let get_inbox = match r0 {
            Ok(s) => s,
            Err(e) => return Err(InitFault::NotPrepared(StatementKind::GetInbox, e)),
        };
        let get_outbox = match r1 {
            Ok(s) => s,
            Err(e) => return Err(InitFault::NotPrepared(StatementKind::GetOutbox, e)),
        };
        let create_message = match r2 {
            Ok(s) => s,
            Err(e) => return Err(InitFault::NotPrepared(StatementKind::CreateMessage, e)),
        };
        let add_sender = match r3 {
            Ok(s) => s,
            Err(e) => return Err(InitFault::NotPrepared(StatementKind::AddSender, e)),
        };
        let add_reciever = match r4 {
            Ok(s) => s,
            Err(e) => return Err(InitFault::NotPrepared(StatementKind::AddReciever, e)),
        };
        let create_actor = match r5 {
            Ok(s) => s,
            Err(e) => return Err(InitFault::NotPrepared(StatementKind::CreateActor, e)),
        };
        let delete_actor = match r6 {
            Ok(s) => s,
            Err(e) => return Err(InitFault::NotPrepared(StatementKind::DeleteActor, e)),
        };
        Ok(
            Statements {
                get_inbox,
                get_outbox,
                create_message,
                add_sender,
                add_reciever,
                create_actor,
                delete_actor,
            },
        )
    }
}

/// The store: the connection together with the statements prepared on it.
pub struct Db {
    client: Client,
    statements: Statements,
}

impl Db {
    /// The connection of the store.
    pub closed spec fn client(&self) -> Client {
        self.client
    }

    /// The statements of the store.
    pub closed spec fn statements(&self) -> Statements {
        self.statements
    }

    /// Hands out the connection and the statements together, for as long as the
    /// store is borrowed.
    pub fn get(&mut self) -> (parts: (&mut Client, &Statements))
        ensures
            *parts.0 == old(self).client(),
            *parts.1 == old(self).statements(),
            final(self).client() == *final(parts.0),
            final(self).statements() == old(self).statements(),
    {
        (&mut self.client, &self.statements)
    }
}

/// Sets up the store from the connection and the outcomes of preparing its
/// statements on it, which come in the order of preparation. The store exists
/// only where every statement was prepared.
pub fn init<E>(client: Client, prepared: Vec<Result<Statement, E>>) -> (result: Result<
    Db,
    InitFault<E>,
>)
    ensures
        result is Ok <==> all_prepared(prepared@),
        match result {
            Ok(db) => db.client() == client && assembled(
                prepared@,
                Ok::<Statements, InitFault<E>>(db.statements()),
            ),
            Err(fault) => assembled(prepared@, Err::<Statements, InitFault<E>>(fault)),
        },
{
    match Statements::assemble(prepared) {
        Ok(statements) => Ok(Db { client, statements }),
        Err(fault) => Err(fault),
    }
}

} // verus!
