//! Sample rows for the demonstration tables.

use vstd::prelude::*;

verus! {

/// An employee row: id, name and the id of the manager, if any.
pub type EmployeeRow = (i32, &'static str, Option<i32>);

/// The organisation chart: Alice leads Bob and Charlie, Bob leads David and Eve,
/// Charlie leads Frank.
pub open spec fn org_chart() -> Seq<EmployeeRow> {
    seq![
        (1i32, "Alice", None),
        (2i32, "Bob", Some(1i32)),
        (3i32, "Charlie", Some(1i32)),
        (4i32, "David", Some(2i32)),
        (5i32, "Eve", Some(2i32)),
        (6i32, "Frank", Some(3i32)),
    ]
}

/// The rows of the `employees` table, in insertion order.
pub fn org_rows() -> (rows: Vec<EmployeeRow>)
    ensures
        rows@ == org_chart(),
{
    let mut rows = Vec::new();
    rows.push((1, "Alice", None));
    rows.push((2, "Bob", Some(1)));
    rows.push((3, "Charlie", Some(1)));
    rows.push((4, "David", Some(2)));
    rows.push((5, "Eve", Some(2)));
    rows.push((6, "Frank", Some(3)));
    assert(rows@ =~= org_chart());
    rows
}

/// The edges `(from, to)` of the path-finding graph, in insertion order.
pub fn graph_edges() -> (edges: Vec<(&'static str, &'static str)>)
    ensures
        edges@ == seq![("A", "B"), ("A", "C"), ("B", "D"), ("C", "D"), ("B", "C")],
{
    let mut edges = Vec::new();
    edges.push(("A", "B"));
    edges.push(("A", "C"));
    edges.push(("B", "D"));
    edges.push(("C", "D"));
    edges.push(("B", "C"));
    assert(edges@ =~= seq![("A", "B"), ("A", "C"), ("B", "D"), ("C", "D"), ("B", "C")]);
    edges
}

/// The product of the i-th generated sale: A, B and C in turn.
pub open spec fn sale_product(i: int) -> &'static str {
    if i % 3 == 0 {
        "A"
    } else if i % 3 == 1 {
        "B"
    } else {
        "C"
    }
}

/// The region of the i-th generated sale: North, South, East and West in turn.
pub open spec fn sale_region(i: int) -> &'static str {
    if i % 4 == 0 {
        "North"
    } else if i % 4 == 1 {
        "South"
    } else if i % 4 == 2 {
        "East"
    } else {
        "West"
    }
}

/// The product and region of the i-th generated sale (its amount is `i`).
pub fn sale_labels(i: usize) -> (labels: (&'static str, &'static str))
    ensures
        labels == (sale_product(i as int), sale_region(i as int)),
{
    let products: [&'static str; 3] = ["A", "B", "C"];
    let regions: [&'static str; 4] = ["North", "South", "East", "West"];
    (products[i % 3], regions[i % 4])
}

} // verus!
