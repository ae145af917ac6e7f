use graft::store::connection_url;
use graft::store::InitFault;
use graft::store::StatementKind;
use graft::store::Statements;
use graft::store::STATEMENT_COUNT;
use tokio_postgres::Statement;

const ORDER: [StatementKind; 7] = [
    StatementKind::GetInbox,
    StatementKind::GetOutbox,
    StatementKind::CreateMessage,
    StatementKind::AddSender,
    StatementKind::AddReciever,
    StatementKind::CreateActor,
    StatementKind::DeleteActor,
];

#[test]
fn the_address_names_the_user_and_the_local_database() {
    assert_eq!(connection_url("alice"), "postgres://alice@localhost/graft");
    assert_eq!(connection_url(""), "postgres://@localhost/graft");
    assert_eq!(connection_url("jörg"), "postgres://jörg@localhost/graft");
}

#[test]
fn there_are_seven_statements_in_a_fixed_order() {
    assert_eq!(STATEMENT_COUNT, 7);
    for (i, kind) in ORDER.iter().enumerate() {
        assert_eq!(kind.index(), i);
        assert_eq!(StatementKind::from_index(i), Some(*kind));
    }
    assert_eq!(StatementKind::from_index(7), None);
    assert_eq!(StatementKind::from_index(usize::MAX), None);
}

#[test]
fn the_statements_have_their_texts() {
    assert_eq!(
        StatementKind::GetInbox.sql(),
        "SELECT * FROM messages WHERE id IN (SELECT message FROM messages_recieved WHERE actor = $1) ORDER BY ctime;"
    );
    assert_eq!(
        StatementKind::GetOutbox.sql(),
        "SELECT * FROM messages WHERE id IN (SELECT message FROM messages_sent WHERE actor = $1) ORDER BY ctime;"
    );
    assert_eq!(
        StatementKind::CreateMessage.sql(),
        "INSERT INTO messages (content, ctime, mtime) VALUES ($1, $2, $2) RETURNING id;"
    );
    assert_eq!(
        StatementKind::AddSender.sql(),
        "INSERT INTO messages_sent (actor, message) VALUES ($2, $1);"
    );
    assert_eq!(
        StatementKind::AddReciever.sql(),
        "INSERT INTO messages_recieved (actor, message) VALUES ($2, $1);"
    );
    assert_eq!(
        StatementKind::CreateActor.sql(),
        "INSERT INTO actors (actortype, id) VALUES ($1, $2);"
    );
    assert_eq!(
        StatementKind::DeleteActor.sql(),
        "DELETE FROM actors WHERE actortype = $2 AND id = $1;"
    );
}

#[test]
fn both_mailbox_queries_order_by_creation_time() {
    assert!(StatementKind::GetInbox.sql().ends_with("ORDER BY ctime;"));
    assert!(StatementKind::GetOutbox.sql().ends_with("ORDER BY ctime;"));
}

#[test]
fn another_number_of_outcomes_sets_nothing_up() {
    let none: Vec<Result<Statement, String>> = Vec::new();
    assert!(matches!(Statements::assemble(none), Err(InitFault::WrongCount(0))));
    let three: Vec<Result<Statement, String>> =
        vec![Err("a".to_string()), Err("b".to_string()), Err("c".to_string())];
    assert!(matches!(Statements::assemble(three), Err(InitFault::WrongCount(3))));
    let eight: Vec<Result<Statement, u8>> = (0..8u8).map(Err).collect();
    assert!(matches!(Statements::assemble(eight), Err(InitFault::WrongCount(8))));
}

#[test]
fn the_first_statement_that_was_not_prepared_is_reported() {
    let all_failed: Vec<Result<Statement, u8>> = (0..7u8).map(Err).collect();
    match Statements::assemble(all_failed) {
        Err(InitFault::NotPrepared(kind, cause)) => {
            assert_eq!(kind, StatementKind::GetInbox);
            assert_eq!(cause, 0);
        }
        _ => panic!("a set of statements was made of failures"),
    }
}
