use pg_bridge::{
    connected, executed, executed_with_result, new_query, query_exec, query_exec_result,
    query_param, Bridge, Buffer, Dispatch, EncodingPolicy, ErrorKind, Float8, Int4, IsNull, Opaque,
    OpaquePtr, ParamType, QueryParam, Run, Text, TypedParam, TypedQueryParam,
};

struct Session;

fn bridge_with_connection(policy: EncodingPolicy) -> (Bridge<Session>, Opaque) {
    let mut bridge: Bridge<Session> = Bridge::new(policy);
    let conn = connected(&mut bridge, Ok(Session)).data().unwrap();
    (bridge, conn)
}

fn param<'a>(tag: &'a str, value: &'a [u8]) -> QueryParam<'a> {
    QueryParam { typename: Buffer::from_str(tag), value: Buffer::from_bytes(value) }
}

#[test]
fn declared_types_have_the_names_of_the_database() {
    assert_eq!(Text::name(), "text");
    assert_eq!(Int4::name(), "int4");
    assert_eq!(Float8::name(), "float8");
}

#[test]
fn known_tags_are_bound_under_their_type() {
    let text = param("text", b"hello").typed_param(EncodingPolicy::Strict).unwrap();
    assert!(matches!(text, TypedParam::Text(_)));
    assert_eq!(text.declared_type(), Some("text"));
    assert_eq!(text.value(), b"hello");
    let int = param("int4", &[0, 0, 0, 7]).typed_param(EncodingPolicy::Strict).unwrap();
    assert!(matches!(int, TypedParam::Int4(_)));
    assert_eq!(int.value(), &[0u8, 0, 0, 7]);
    let float = param("float8", &[0x3f, 0xf0, 0, 0, 0, 0, 0, 0])
        .typed_param(EncodingPolicy::Strict)
        .unwrap();
    assert!(matches!(float, TypedParam::Float8(_)));
    assert_eq!(float.declared_type(), Some("float8"));
}

#[test]
fn unknown_tag_is_bound_untyped_under_the_lenient_policy() {
    let bound = param("uuid", b"0123456789abcdef").typed_param(EncodingPolicy::Lenient).unwrap();
    assert!(matches!(bound, TypedParam::Raw(_)));
    assert_eq!(bound.declared_type(), None);
    assert_eq!(bound.value(), b"0123456789abcdef");
}

#[test]
fn unknown_tag_is_refused_under_the_strict_policy() {
    let refused = param("uuid", b"0123456789abcdef").typed_param(EncodingPolicy::Strict);
    assert_eq!(refused.err().map(|e| e.kind), Some(ErrorKind::Encoding));
}

#[test]
fn tag_must_match_to_the_letter() {
    assert!(matches!(
        param("TEXT", b"x").typed_param(EncodingPolicy::Lenient),
        Ok(TypedParam::Raw(_))
    ));
    assert!(matches!(
        param("text ", b"x").typed_param(EncodingPolicy::Lenient),
        Ok(TypedParam::Raw(_))
    ));
    assert!(matches!(param("", b"x").typed_param(EncodingPolicy::Lenient), Ok(TypedParam::Raw(_))));
    let no_tag = QueryParam { typename: Buffer::null(), value: Buffer::from_bytes(b"x") };
    assert!(no_tag.typed_param(EncodingPolicy::Strict).is_err());
}

#[test]
fn typed_value_accepts_only_its_own_type() {
    assert!(TypedQueryParam::<Text>::accepts("text"));
    assert!(!TypedQueryParam::<Text>::accepts("varchar"));
    assert!(TypedQueryParam::<Int4>::accepts("int4"));
    assert!(!TypedQueryParam::<Int4>::accepts("int8"));
    assert!(TypedQueryParam::<Float8>::accepts("float8"));
    let bound = param("int4", &[0, 0, 0, 1]).typed_param(EncodingPolicy::Strict).unwrap();
    assert!(bound.accepts("int4"));
    assert!(!bound.accepts("text"));
}

#[test]
fn untyped_value_accepts_every_type() {
    assert!(QueryParam::accepts("uuid"));
    assert!(QueryParam::accepts("text"));
    let bound = param("uuid", b"x").typed_param(EncodingPolicy::Lenient).unwrap();
    assert!(bound.accepts("uuid"));
    assert!(bound.accepts("int4"));
}

#[test]
fn to_sql_appends_the_value_and_is_never_null() {
    let mut out = vec![0xaau8];
    let typed = TypedQueryParam::<Text>::new(Buffer::from_str("hi"));
    assert_eq!(typed.to_sql(&mut out), IsNull::No);
    assert_eq!(out, vec![0xaa, b'h', b'i']);
    let raw = param("uuid", &[1, 2]);
    assert_eq!(raw.to_sql(&mut out), IsNull::No);
    assert_eq!(out, vec![0xaa, b'h', b'i', 1, 2]);
    let bound = param("int4", &[0, 0, 0, 9]).typed_param(EncodingPolicy::Strict).unwrap();
    assert_eq!(bound.to_sql(&mut out), IsNull::No);
    assert_eq!(out, vec![0xaa, b'h', b'i', 1, 2, 0, 0, 0, 9]);
}

#[test]
fn empty_value_appends_nothing() {
    let mut out = vec![1u8];
    let typed = TypedQueryParam::<Text>::new(Buffer::null());
    assert_eq!(typed.to_sql(&mut out), IsNull::No);
    assert_eq!(out, vec![1u8]);
}

#[test]
fn bound_parameter_outlives_the_view_it_came_from() {
    let bound = {
        let storage = String::from("short-lived");
        TypedQueryParam::<Text>::new(Buffer::from_str(&storage))
    };
    assert_eq!(bound.value(), b"short-lived");
}

#[test]
fn new_query_remembers_text_and_connection() {
    let (mut bridge, conn) = bridge_with_connection(EncodingPolicy::Lenient);
    let query = new_query(&mut bridge, conn, Buffer::from_str("SELECT $1")).unwrap();
    let stored = bridge.queries.get(query).unwrap();
    assert_eq!(stored.query, "SELECT $1");
    assert_eq!(stored.conn, conn);
    assert!(stored.params.is_empty());
    assert!(bridge.connections.get(conn).is_some());
}

#[test]
fn new_query_needs_a_live_connection() {
    let (mut bridge, conn) = bridge_with_connection(EncodingPolicy::Lenient);
    let stranger = Opaque { kind: conn.kind, slot: conn.slot + 1, generation: 0 };
    let refused = new_query(&mut bridge, stranger, Buffer::from_str("SELECT 1"));
    assert_eq!(refused.err().map(|e| e.kind), Some(ErrorKind::Boundary));
}

#[test]
fn new_query_needs_text() {
    let (mut bridge, conn) = bridge_with_connection(EncodingPolicy::Lenient);
    let bytes = [0xc0u8, 0x80];
    let refused = new_query(&mut bridge, conn, Buffer::from_bytes(&bytes));
    assert_eq!(refused.err().map(|e| e.kind), Some(ErrorKind::Boundary));
    assert!(new_query(&mut bridge, conn, Buffer::null()).is_err());
}

#[test]
fn parameters_are_kept_in_binding_order() {
    let (mut bridge, conn) = bridge_with_connection(EncodingPolicy::Lenient);
    let query = new_query(&mut bridge, conn, Buffer::from_str("SELECT $1, $2, $3")).unwrap();
    assert!(query_param(&mut bridge, query, param("text", b"first")).is_ok());
    assert!(query_param(&mut bridge, query, param("int4", &[0, 0, 0, 2])).is_ok());
    assert!(query_param(&mut bridge, query, param("uuid", b"third")).is_ok());
    let stored = bridge.queries.get(query).unwrap();
    let params = stored.sql_params();
    assert_eq!(params.len(), 3);
    assert_eq!(params[0].value(), b"first");
    assert_eq!(params[0].declared_type(), Some("text"));
    assert_eq!(params[1].value(), &[0u8, 0, 0, 2]);
    assert_eq!(params[1].declared_type(), Some("int4"));
    assert_eq!(params[2].value(), b"third");
    assert_eq!(params[2].declared_type(), None);
}

#[test]
fn strict_bridge_refuses_an_unknown_tag_and_keeps_the_query() {
    let (mut bridge, conn) = bridge_with_connection(EncodingPolicy::Strict);
    let query = new_query(&mut bridge, conn, Buffer::from_str("SELECT $1")).unwrap();
    let refused = query_param(&mut bridge, query, param("uuid", b"x"));
    assert_eq!(refused.err().map(|e| e.kind), Some(ErrorKind::Encoding));
    assert!(bridge.queries.get(query).unwrap().params.is_empty());
    assert!(query_param(&mut bridge, query, param("text", b"x")).is_ok());
    assert_eq!(bridge.queries.get(query).unwrap().params.len(), 1);
}

#[test]
fn query_param_needs_a_live_query() {
    let (mut bridge, conn) = bridge_with_connection(EncodingPolicy::Lenient);
    let refused = query_param(&mut bridge, conn, param("text", b"x"));
    assert_eq!(refused.err().map(|e| e.kind), Some(ErrorKind::Boundary));
}

#[test]
fn arity_must_match_the_placeholders() {
    let (mut bridge, conn) = bridge_with_connection(EncodingPolicy::Lenient);
    let query = new_query(&mut bridge, conn, Buffer::from_str("SELECT $1, $2")).unwrap();
    assert!(query_param(&mut bridge, query, param("text", b"only one")).is_ok());
    let stored = bridge.queries.get(query).unwrap();
    assert!(stored.check_arity(1).is_ok());
    assert_eq!(stored.check_arity(2).err().map(|e| e.kind), Some(ErrorKind::Execution));
    assert_eq!(stored.check_arity(0).err().map(|e| e.kind), Some(ErrorKind::Execution));
}

#[test]
fn query_runs_once() {
    let (mut bridge, conn) = bridge_with_connection(EncodingPolicy::Lenient);
    let query = new_query(&mut bridge, conn, Buffer::from_str("DELETE FROM t")).unwrap();
    match query_exec(&mut bridge, query) {
        Dispatch::Run(run) => {
            assert_eq!(run.query().query, "DELETE FROM t");
            assert_eq!(run.query().conn, conn);
            assert!(!run.ready());
        }
        Dispatch::Refused(_) => panic!("a live query was refused"),
    }
    match query_exec(&mut bridge, query) {
        Dispatch::Refused(envelope) => {
            assert_eq!(envelope.status(), ErrorKind::Boundary.code());
            assert!(envelope.data().is_none());
        }
        Dispatch::Run(_) => panic!("a query ran twice"),
    }
    assert!(matches!(query_exec_result(&mut bridge, query), Dispatch::Refused(_)));
    assert!(query_param(&mut bridge, query, param("text", b"late")).is_err());
}

#[test]
fn query_for_rows_carries_its_parameters_out() {
    let (mut bridge, conn) = bridge_with_connection(EncodingPolicy::Lenient);
    let query = new_query(&mut bridge, conn, Buffer::from_str("SELECT $1")).unwrap();
    assert!(query_param(&mut bridge, query, param("text", b"hello")).is_ok());
    match query_exec_result(&mut bridge, query) {
        Dispatch::Run(run) => {
            assert_eq!(run.query().sql_params().len(), 1);
            assert_eq!(run.query().sql_params()[0].value(), b"hello");
        }
        Dispatch::Refused(_) => panic!("a live query was refused"),
    }
    assert!(bridge.queries.get(query).is_none());
}

fn run_with(bridge: &mut Bridge<Session>, conn: Opaque, sql: &str, bound: usize) -> Run {
    let query = new_query(bridge, conn, Buffer::from_str(sql)).unwrap();
    for _ in 0..bound {
        assert!(query_param(bridge, query, param("int4", &[0, 0, 0, 1])).is_ok());
    }
    match query_exec(bridge, query) {
        Dispatch::Run(run) => run,
        Dispatch::Refused(_) => panic!("a live query was refused"),
    }
}

#[test]
fn run_is_ready_when_the_placeholders_fit() {
    let (mut bridge, conn) = bridge_with_connection(EncodingPolicy::Lenient);
    let mut run = run_with(&mut bridge, conn, "SELECT $1, $2", 2);
    assert!(!run.ready());
    assert!(run.prepared(2).is_ok());
    assert!(run.ready());
}

#[test]
fn run_is_not_ready_when_the_placeholders_do_not_fit() {
    let (mut bridge, conn) = bridge_with_connection(EncodingPolicy::Lenient);
    let mut run = run_with(&mut bridge, conn, "SELECT $1, $2", 1);
    assert_eq!(run.prepared(2).err().map(|e| e.kind), Some(ErrorKind::Execution));
    assert!(!run.ready());
    let mut none_bound = run_with(&mut bridge, conn, "SELECT $1", 0);
    assert_eq!(none_bound.prepared(1).err().map(|e| e.kind), Some(ErrorKind::Execution));
    let mut too_many = run_with(&mut bridge, conn, "SELECT 1", 1);
    assert!(too_many.prepared(0).is_err());
}

#[test]
fn count_is_reported_behind_a_handle() {
    let (mut bridge, conn) = bridge_with_connection(EncodingPolicy::Lenient);
    let mut run = run_with(&mut bridge, conn, "DELETE FROM t WHERE id = $1", 1);
    assert!(run.prepared(1).is_ok());
    let envelope = executed(&mut bridge, run, Ok(3));
    assert_eq!(envelope.status(), 0);
    let count = OpaquePtr::<u64>::from_opaque(envelope.data().unwrap());
    assert_eq!(count.as_ref(&bridge.counts).ok(), Some(&3));
    assert_eq!(count.free(&mut bridge.counts).ok(), Some(3));
    assert!(count.free(&mut bridge.counts).is_err());
}

#[test]
fn mismatched_run_is_never_a_success() {
    let (mut bridge, conn) = bridge_with_connection(EncodingPolicy::Lenient);
    let mut run = run_with(&mut bridge, conn, "DELETE FROM t WHERE id = $1", 0);
    assert!(run.prepared(1).is_err());
    let envelope = executed(&mut bridge, run, Ok(3));
    assert_eq!(envelope.status(), ErrorKind::Execution.code());
    assert!(envelope.data().is_none());
    let unprepared = run_with(&mut bridge, conn, "DELETE FROM t", 0);
    let envelope = executed_with_result(&mut bridge, unprepared, Ok(Vec::new()));
    assert_eq!(envelope.status(), 2);
}

#[test]
fn failed_statement_is_an_execution_error() {
    let (mut bridge, conn) = bridge_with_connection(EncodingPolicy::Lenient);
    let mut run = run_with(&mut bridge, conn, "DELETE FROM t", 0);
    assert!(run.prepared(0).is_ok());
    let envelope = executed(&mut bridge, run, Err(String::from("relation \"t\" does not exist")));
    assert_eq!(envelope.status(), 2);
    assert!(envelope.data().is_none());
    let error = bridge.errors.get(envelope.error().unwrap()).unwrap();
    assert_eq!(error.kind, ErrorKind::Execution);
    assert_eq!(error.msg, "relation \"t\" does not exist");
    let unprepared = run_with(&mut bridge, conn, "SELEC 1", 0);
    let rows = executed_with_result(&mut bridge, unprepared, Err(String::from("syntax error")));
    assert_eq!(rows.status(), 2);
    let message = bridge.errors.get(rows.error().unwrap()).unwrap();
    assert_eq!(message.msg, "syntax error");
}
