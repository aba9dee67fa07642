use tblgen::foreign::{DagArg, ForeignGraph, RawValue};
use tblgen::init::TypedInit;

fn graph(values: Vec<RawValue>) -> ForeignGraph {
    ForeignGraph::new(values).expect("the graph's handles must be in range")
}

fn named(name: &str, value: usize) -> DagArg {
    DagArg {
        name: Some(name.as_bytes().to_vec()),
        value,
    }
}

fn positional(value: usize) -> DagArg {
    DagArg { name: None, value }
}

#[test]
fn list_of_three_integers_iterates_in_order() {
    let mut db = graph(vec![
        RawValue::Int(1),
        RawValue::Int(2),
        RawValue::Int(3),
        RawValue::List(vec![0, 1, 2]),
    ]);
    let list = match TypedInit::from_raw(&mut db, 3) {
        Ok(TypedInit::List(l)) => l,
        other => panic!("expected a list view, got {:?}", other),
    };
    let mut it = list.iter();
    assert_eq!(it.next(&mut db), Some(TypedInit::Int(1)));
    assert_eq!(it.next(&mut db), Some(TypedInit::Int(2)));
    assert_eq!(it.next(&mut db), Some(TypedInit::Int(3)));
    assert_eq!(it.next(&mut db), None);
    assert_eq!(it.next(&mut db), None);
    assert_eq!(db.live_buffer_count(), 0);
}

#[test]
fn list_length_is_unaffected_by_partial_iteration() {
    let mut db = graph(vec![
        RawValue::Int(1),
        RawValue::Int(2),
        RawValue::Int(3),
        RawValue::List(vec![0, 1, 2]),
    ]);
    let list = TypedInit::from_raw(&mut db, 3)
        .unwrap()
        .project_list()
        .unwrap();
    assert_eq!(list.len(&db), 3);
    let mut it = list.iter();
    assert_eq!(it.next(&mut db), Some(TypedInit::Int(1)));
    assert_eq!(list.len(&db), 3);
}

#[test]
fn list_get_is_bounds_checked() {
    let mut db = graph(vec![RawValue::Int(4), RawValue::List(vec![0, 0])]);
    let list = TypedInit::from_raw(&mut db, 1)
        .unwrap()
        .project_list()
        .unwrap();
    assert_eq!(list.get(&mut db, 0), Some(TypedInit::Int(4)));
    assert_eq!(list.get(&mut db, 1), Some(TypedInit::Int(4)));
    assert_eq!(list.get(&mut db, 2), None);
    assert_eq!(list.get_unchecked(&mut db, 1), Some(TypedInit::Int(4)));
}

#[test]
fn list_element_that_fails_to_decode_reads_as_none() {
    let mut db = graph(vec![RawValue::Bit(3), RawValue::List(vec![0])]);
    let list = TypedInit::from_raw(&mut db, 1)
        .unwrap()
        .project_list()
        .unwrap();
    assert_eq!(list.get(&mut db, 0), None);
    let mut it = list.iter();
    assert_eq!(it.next(&mut db), None);
    assert_eq!(list.len(&db), 1);
}

#[test]
fn list_iteration_resumes_past_a_failing_element() {
    // The cursor advances on every call, so the element after a corrupt bit
    // is still reachable by calling again.
    let mut db = graph(vec![
        RawValue::Bit(9),
        RawValue::Int(2),
        RawValue::List(vec![0, 1]),
    ]);
    let list = TypedInit::from_raw(&mut db, 2)
        .unwrap()
        .project_list()
        .unwrap();
    let mut it = list.iter();
    assert_eq!(it.next(&mut db), None);
    assert_eq!(it.next(&mut db), Some(TypedInit::Int(2)));
    assert_eq!(it.next(&mut db), None);
}

#[test]
fn empty_list_iterates_to_nothing() {
    let mut db = graph(vec![RawValue::List(vec![])]);
    let list = TypedInit::from_raw(&mut db, 0)
        .unwrap()
        .project_list()
        .unwrap();
    assert_eq!(list.len(&db), 0);
    let mut it = list.iter();
    assert_eq!(it.next(&mut db), None);
}

#[test]
fn nested_list_decodes_to_a_view() {
    let mut db = graph(vec![
        RawValue::Int(8),
        RawValue::List(vec![0]),
        RawValue::List(vec![1]),
    ]);
    let outer = TypedInit::from_raw(&mut db, 2)
        .unwrap()
        .project_list()
        .unwrap();
    let inner = outer.get(&mut db, 0).unwrap().project_list().unwrap();
    assert_eq!(inner.get(&mut db, 0), Some(TypedInit::Int(8)));
}

#[test]
fn dag_with_named_and_unnamed_arguments() {
    // An operator with two arguments: "lhs" holding 5, and an unnamed 6.
    let mut db = graph(vec![
        RawValue::Int(5),
        RawValue::Int(6),
        RawValue::Dag(vec![named("lhs", 0), positional(1)]),
    ]);
    let dag = TypedInit::from_raw(&mut db, 2)
        .unwrap()
        .project_dag()
        .unwrap();
    assert_eq!(dag.num_args(&db), 2);

    let mut it = dag.args();
    assert_eq!(
        it.next(&mut db),
        Some((String::from("lhs"), TypedInit::Int(5)))
    );
    assert_eq!(it.next(&mut db), None);

    // The unnamed argument stays reachable through direct access.
    assert_eq!(dag.get(&mut db, 1), Some(TypedInit::Int(6)));
    assert_eq!(dag.name(&db, 1), None);
    assert_eq!(dag.name(&db, 0), Some(String::from("lhs")));
    assert_eq!(dag.name(&db, 2), None);
    assert_eq!(db.live_buffer_count(), 0);
}

#[test]
fn dag_iteration_skips_unnamed_and_keeps_order() {
    let mut db = graph(vec![
        RawValue::Int(1),
        RawValue::Int(2),
        RawValue::Int(3),
        RawValue::Dag(vec![named("a", 0), positional(1), named("b", 2)]),
    ]);
    let dag = TypedInit::from_raw(&mut db, 3)
        .unwrap()
        .project_dag()
        .unwrap();
    let mut it = dag.args();
    assert_eq!(it.next(&mut db), Some((String::from("a"), TypedInit::Int(1))));
    assert_eq!(it.next(&mut db), Some((String::from("b"), TypedInit::Int(3))));
    assert_eq!(it.next(&mut db), None);
}

#[test]
fn dag_get_is_bounds_checked() {
    let mut db = graph(vec![
        RawValue::Int(5),
        RawValue::Dag(vec![positional(0)]),
    ]);
    let dag = TypedInit::from_raw(&mut db, 1)
        .unwrap()
        .project_dag()
        .unwrap();
    assert_eq!(dag.get(&mut db, 0), Some(TypedInit::Int(5)));
    assert_eq!(dag.get(&mut db, 1), None);
    assert_eq!(dag.get_unchecked(&mut db, 0), Some(TypedInit::Int(5)));
}

#[test]
fn dag_argument_name_is_lossily_converted() {
    let mut db = graph(vec![
        RawValue::Int(0),
        RawValue::Dag(vec![DagArg {
            name: Some(vec![0xff, b'n']),
            value: 0,
        }]),
    ]);
    let dag = TypedInit::from_raw(&mut db, 1)
        .unwrap()
        .project_dag()
        .unwrap();
    assert_eq!(dag.name(&db, 0), Some(String::from("\u{FFFD}n")));
}

#[test]
fn dag_iteration_ends_on_a_failing_value() {
    // The second argument's value is a corrupt bit: its access reports
    // nothing, which ends the pair traversal.
    let mut db = graph(vec![
        RawValue::Int(1),
        RawValue::Bit(9),
        RawValue::Int(3),
        RawValue::Dag(vec![named("a", 0), named("bad", 1), named("c", 2)]),
    ]);
    let dag = TypedInit::from_raw(&mut db, 3)
        .unwrap()
        .project_dag()
        .unwrap();
    let mut it = dag.args();
    assert_eq!(it.next(&mut db), Some((String::from("a"), TypedInit::Int(1))));
    assert_eq!(it.next(&mut db), None);
    // The cursor advanced past the failing argument, so a further call
    // resumes behind it.
    assert_eq!(it.next(&mut db), Some((String::from("c"), TypedInit::Int(3))));
    assert_eq!(it.next(&mut db), None);
}
