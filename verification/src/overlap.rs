//! Ambiguity of route tables: whether some request is accepted by two routes.
//!
//! Two routes are compared place by place, without looking at any request.
//! The comparison is exact for well-formed routes: they overlap if and only if
//! some request is accepted by both. The service's own table has no overlap,
//! so each request reaches one operation at most, and which one can be read
//! off the table route by route.

use vstd::prelude::*;
use crate::routes::{
    bind, captures, dispatch_spec, first_match, lemma_first_match, path_segments,
    pattern_accepts, restaurant_table, route_accepts, routes_view, segment_accepts,
    Method, Operation, Route, RouteData, Segment, SegmentData, Target,
};
use crate::text::{
    chars_of, decimal_value, integer_of, join_slash, lemma_split_join, parse_i64, same_text,
    split_slash,
};

verus! {

/// Whether no character of `text` is a slash.
pub open spec fn slash_free(text: Seq<char>) -> bool {
    forall|i: int| 0 <= i < text.len() ==> #[trigger] text[i] != '/'
}

/// Whether `text` can stand as a literal in a pattern: it is not empty and
/// holds no slash.
pub open spec fn literal_ok(text: Seq<char>) -> bool {
    text.len() > 0 && slash_free(text)
}

/// Whether one place of a pattern is well-formed.
pub open spec fn segment_ok(segment: SegmentData) -> bool {
    match segment {
        SegmentData::Literal(text) => literal_ok(text),
        SegmentData::Integer => true,
    }
}

/// Whether every literal of the route can stand in a pattern.
pub open spec fn well_formed(route: RouteData) -> bool {
    forall|i: int| 0 <= i < route.pattern.len() ==> segment_ok(#[trigger] route.pattern[i])
}

/// Whether some text fits both places: equal literals, a literal that writes
/// an integer beside an integer place, or two integer places.
pub open spec fn segments_overlap(a: SegmentData, b: SegmentData) -> bool {
    match (a, b) {
        (SegmentData::Literal(x), SegmentData::Literal(y)) => x == y,
        (SegmentData::Literal(x), SegmentData::Integer) => integer_of(x) is Some,
        (SegmentData::Integer, SegmentData::Literal(y)) => integer_of(y) is Some,
        (SegmentData::Integer, SegmentData::Integer) => true,
    }
}

/// Whether two patterns have the same length and overlap at every place.
pub open spec fn patterns_overlap(a: Seq<SegmentData>, b: Seq<SegmentData>) -> bool {
    &&& a.len() == b.len()
    &&& forall|i: int| 0 <= i < a.len() ==> segments_overlap(#[trigger] a[i], b[i])
}

/// Whether two routes take the same method and their patterns overlap.
pub open spec fn routes_overlap(a: RouteData, b: RouteData) -> bool {
    a.method == b.method && patterns_overlap(a.pattern, b.pattern)
}

/// Whether no request is accepted by two routes of the table.
pub open spec fn unambiguous(table: Seq<RouteData>) -> bool {
    forall|i: int, j: int, method: Method, path: Seq<char>|
        #![trigger route_accepts(table[i], method, path), route_accepts(table[j], method, path)]
        0 <= i < j < table.len() ==> !(route_accepts(table[i], method, path) && route_accepts(
            table[j],
            method,
            path,
        ))
}

/// Whether every route of the table is well-formed.
pub open spec fn all_well_formed(table: Seq<RouteData>) -> bool {
    forall|i: int| 0 <= i < table.len() ==> well_formed(#[trigger] table[i])
}

/// Whether no two routes of the table overlap.
pub open spec fn no_overlap(table: Seq<RouteData>) -> bool {
    forall|i: int, j: int|
        0 <= i < j < table.len() ==> !routes_overlap(#[trigger] table[i], #[trigger] table[j])
}

/// Whether the pair `(i, j)` comes before the pair `(first, second)` when
/// pairs are tried row by row.
pub open spec fn pair_before(i: int, j: int, first: int, second: int) -> bool {
    i < first || (i == first && j < second)
}

/// What is wrong with a route table.
#[derive(Debug, Clone, Copy, PartialEq, Eq, Structural)]
pub enum TableFault {
    /// The route at this index has a literal that is empty or holds a slash.
    BadLiteral { route: usize },
    /// Some request is accepted by both of these routes.
    Ambiguous { first: usize, second: usize },
}

/// A text for one place that fits both patterns there, if they overlap.
pub open spec fn shared_segment(a: SegmentData, b: SegmentData) -> Seq<char> {
    match (a, b) {
        (SegmentData::Literal(x), _) => x,
        (_, SegmentData::Literal(y)) => y,
        _ => seq!['0'],
    }
}

/// A path that both patterns accept, if they overlap.
pub open spec fn shared_path(a: Seq<SegmentData>, b: Seq<SegmentData>) -> Seq<char> {
    if a.len() == 0 {
        Seq::empty()
    } else {
        seq!['/'] + join_slash(Seq::new(a.len(), |i: int| shared_segment(a[i], b[i])))
    }
}

/// Two routes that accept the same request overlap.
pub proof fn lemma_shared_request_overlaps(
    a: RouteData,
    b: RouteData,
    method: Method,
    path: Seq<char>,
)
    requires
        route_accepts(a, method, path),
        route_accepts(b, method, path),
    ensures
        routes_overlap(a, b),
{
    let segments = path_segments(path);
    assert forall|i: int| 0 <= i < a.pattern.len() implies segments_overlap(
        #[trigger] a.pattern[i],
        b.pattern[i],
    ) by {
        assert(segment_accepts(a.pattern[i], segments[i]));
        assert(segment_accepts(b.pattern[i], segments[i]));
    }
}

/// Appending slash-free text to a text only lengthens its last piece.
pub proof fn lemma_split_append(s: Seq<char>, t: Seq<char>)
    requires
        slash_free(t),
    ensures
        split_slash(s).len() >= 1,
        split_slash(s + t) == split_slash(s).drop_last().push(split_slash(s).last() + t),
    decreases t.len(),
{
    lemma_split_join(s);
    let pieces = split_slash(s);
    if t.len() == 0 {
        assert(s + t =~= s);
        assert(pieces.last() + t =~= pieces.last());
    } else {
        let shorter = t.drop_last();
        lemma_split_append(s, shorter);
        assert((s + t).drop_last() =~= s + shorter);
        assert((pieces.last() + shorter).push(t.last()) =~= pieces.last() + t);
    }
}

/// Splitting undoes joining: pieces without slashes, joined by slashes and
/// split again, are the same pieces.
pub proof fn lemma_join_split(parts: Seq<Seq<char>>)
    requires
        parts.len() >= 1,
        forall|i: int| 0 <= i < parts.len() ==> slash_free(#[trigger] parts[i]),
    ensures
        split_slash(join_slash(parts)) == parts,
    decreases parts.len(),
{
    let empty = Seq::<char>::empty();
    if parts.len() == 1 {
        lemma_split_append(empty, parts[0]);
        assert(empty + parts[0] =~= parts[0]);
    } else {
        let init = parts.drop_last();
        assert forall|i: int| 0 <= i < init.len() implies slash_free(#[trigger] init[i]) by {
            assert(init[i] == parts[i]);
        }
        lemma_join_split(init);
        let stem = join_slash(init) + seq!['/'];
        assert(stem.drop_last() =~= join_slash(init));
        assert(split_slash(stem) == init.push(empty));
        lemma_split_append(stem, parts.last());
        assert(init.push(parts.last()) =~= parts);
    }
}

/// Joined pieces whose last piece is not empty are not empty, and they end
/// as their last piece ends.
pub proof fn lemma_join_end(parts: Seq<Seq<char>>)
    requires
        parts.len() >= 1,
        parts.last().len() > 0,
    ensures
        join_slash(parts).len() > 0,
        join_slash(parts).last() == parts.last().last(),
{
}

/// The digit zero writes an integer.
pub proof fn lemma_zero_is_integer()
    ensures
        integer_of(seq!['0']) == Some(0i64),
{
    let zero = seq!['0'];
    assert(decimal_value(zero.drop_last()) == 0);
    assert(decimal_value(zero) == 0);
}

/// Two well-formed routes that overlap accept one and the same request.
pub proof fn lemma_overlap_shares_request(a: RouteData, b: RouteData)
    requires
        well_formed(a),
        well_formed(b),
        routes_overlap(a, b),
    ensures
        route_accepts(a, a.method, shared_path(a.pattern, b.pattern)),
        route_accepts(b, a.method, shared_path(a.pattern, b.pattern)),
{
    let path = shared_path(a.pattern, b.pattern);
    let parts = Seq::new(a.pattern.len(), |i: int| shared_segment(a.pattern[i], b.pattern[i]));
    lemma_zero_is_integer();
    assert forall|i: int| 0 <= i < parts.len() implies slash_free(#[trigger] parts[i])
        && parts[i].len() > 0 && segment_accepts(a.pattern[i], parts[i]) && segment_accepts(
        b.pattern[i],
        parts[i],
    ) by {
        assert(segment_ok(a.pattern[i]));
        assert(segment_ok(b.pattern[i]));
        assert(segments_overlap(a.pattern[i], b.pattern[i]));
    }
    if a.pattern.len() > 0 {
        assert(path.skip(1) =~= join_slash(parts));
        lemma_join_end(parts);
        lemma_join_split(parts);
    }
    assert(path_segments(path) =~= parts);
}

/// A table of well-formed routes is unambiguous exactly when no two of its
/// routes overlap.
pub proof fn lemma_unambiguous_iff_no_overlap(table: Seq<RouteData>)
    requires
        all_well_formed(table),
    ensures
        unambiguous(table) <==> no_overlap(table),
{
    if no_overlap(table) {
        assert forall|i: int, j: int, method: Method, path: Seq<char>|
            #![trigger route_accepts(table[i], method, path), route_accepts(table[j], method, path)]
            0 <= i < j < table.len() implies !(route_accepts(table[i], method, path)
            && route_accepts(table[j], method, path)) by {
            if route_accepts(table[i], method, path) && route_accepts(table[j], method, path) {
                lemma_shared_request_overlaps(table[i], table[j], method, path);
            }
        }
    }
    if unambiguous(table) {
        assert forall|i: int, j: int| 0 <= i < j < table.len() implies !routes_overlap(
            #[trigger] table[i],
            #[trigger] table[j],
        ) by {
            if routes_overlap(table[i], table[j]) {
                lemma_overlap_shares_request(table[i], table[j]);
            }
        }
    }
}

/// The literals of the service's routes are well-formed, and those that
/// start a path differ from one another.
proof fn lemma_restaurant_literals()
    ensures
        literal_ok("orders"@),
        literal_ok("tables"@),
        literal_ok("menus"@),
        literal_ok("menu"@),
        literal_ok("create"@),
        literal_ok("items"@),
        "orders"@ != "tables"@,
        "orders"@ != "menus"@,
        "tables"@ != "menus"@,
        "orders"@ != "menu"@,
        "tables"@ != "menu"@,
{
    reveal_strlit("orders");
    reveal_strlit("tables");
    reveal_strlit("menus");
    reveal_strlit("menu");
    reveal_strlit("create");
    reveal_strlit("items");
    assert("orders"@[0] == 'o');
    assert("tables"@[0] == 't');
    assert("menus"@[0] == 'm');
    assert("menu"@[0] == 'm');
}

/// The service's route table is well-formed and no request is accepted by
/// two of its routes.
pub proof fn lemma_restaurant_table_unambiguous()
    ensures
        all_well_formed(restaurant_table()),
        no_overlap(restaurant_table()),
        unambiguous(restaurant_table()),
{
    let t = restaurant_table();
    lemma_restaurant_literals();
    assert forall|i: int| 0 <= i < t.len() implies well_formed(#[trigger] t[i]) by {
        assert forall|k: int| 0 <= k < t[i].pattern.len() implies segment_ok(
            #[trigger] t[i].pattern[k],
        ) by {}
    }
    assert forall|i: int, j: int| 0 <= i < j < t.len() implies !routes_overlap(
        #[trigger] t[i],
        #[trigger] t[j],
    ) by {
        if t[i].method == t[j].method && t[i].pattern.len() == t[j].pattern.len() {
            assert(!segments_overlap(t[i].pattern[0], t[j].pattern[0]));
        }
    }
    lemma_unambiguous_iff_no_overlap(t);
}

/// The operation that a target asks for.
pub open spec fn operation_of(target: Target) -> Operation {
    match target {
        Target::ListTables => Operation::ListTables,
        Target::CreateTable => Operation::CreateTable,
        Target::ListMenus => Operation::ListMenus,
        Target::CreateMenu => Operation::CreateMenu,
        Target::ListOrders => Operation::ListOrders,
        Target::CreateOrder => Operation::CreateOrder,
        Target::ListOrderItemsForTable { .. } => Operation::ListOrderItemsForTable,
        Target::GetOrderItemForTable { .. } => Operation::GetOrderItemForTable,
        Target::DeleteOrderItem { .. } => Operation::DeleteOrderItem,
    }
}

/// In an unambiguous table the first route that accepts a request is the
/// only one: whichever route accepts it is the first match.
pub proof fn lemma_only_match_is_first(
    table: Seq<RouteData>,
    method: Method,
    path: Seq<char>,
    i: int,
)
    requires
        unambiguous(table),
        0 <= i < table.len(),
        route_accepts(table[i], method, path),
    ensures
        first_match(table, method, path) == Some(i),
{
    lemma_first_match(table, method, path, 0);
    let found = first_match(table, method, path);
    if found is None {
        assert(!route_accepts(table[i], method, path));
    } else if found->0 < i {
        assert(!(route_accepts(table[found->0], method, path) && route_accepts(
            table[i],
            method,
            path,
        )));
    } else if i < found->0 {
        assert(!route_accepts(table[i], method, path));
    }
}

/// The service sends every request to exactly one handler or to none: if any
/// route of its table accepts a request, the request is dispatched to that
/// route's operation with the integers that the route captures, and if no
/// route accepts it, it is dispatched nowhere.
pub proof fn lemma_dispatch_exact(method: Method, path: Seq<char>)
    ensures
        forall|i: int|
            0 <= i < restaurant_table().len() && route_accepts(
                #[trigger] restaurant_table()[i],
                method,
                path,
            ) ==> {
                &&& dispatch_spec(method, path) is Some
                &&& dispatch_spec(method, path) == bind(
                    restaurant_table()[i].operation,
                    captures(restaurant_table()[i].pattern, path_segments(path)),
                )
                &&& operation_of(dispatch_spec(method, path)->0) == restaurant_table()[i].operation
            },
        dispatch_spec(method, path) is None <==> forall|i: int|
            0 <= i < restaurant_table().len() ==> !route_accepts(
                #[trigger] restaurant_table()[i],
                method,
                path,
            ),
{
    let t = restaurant_table();
    let segments = path_segments(path);
    lemma_restaurant_table_unambiguous();
    lemma_first_match(t, method, path, 0);
    assert forall|i: int| 0 <= i < t.len() && route_accepts(#[trigger] t[i], method, path) implies {
        &&& dispatch_spec(method, path) is Some
        &&& dispatch_spec(method, path) == bind(t[i].operation, captures(t[i].pattern, segments))
        &&& operation_of(dispatch_spec(method, path)->0) == t[i].operation
    } by {
        lemma_only_match_is_first(t, method, path, i);
        lemma_captures_count(t[i].pattern, segments);
        reveal_with_fuel(integer_places, 5);
    }
    if dispatch_spec(method, path) is None {
        assert forall|i: int| 0 <= i < t.len() implies !route_accepts(
            #[trigger] t[i],
            method,
            path,
        ) by {}
    }
}

/// The interface of the service, route by route: a request whose method and
/// path segments are those of a route reaches that route's operation, with
/// the integers that its path writes.
pub proof fn lemma_interface(path: Seq<char>, first: Seq<char>, second: Seq<char>)
    ensures
        path_segments(path) == seq!["tables"@] ==> dispatch_spec(Method::Get, path) == Some(
            Target::ListTables,
        ),
        path_segments(path) == seq!["tables"@, "create"@] ==> dispatch_spec(Method::Post, path)
            == Some(Target::CreateTable),
        path_segments(path) == seq!["menu"@] ==> dispatch_spec(Method::Get, path) == Some(
            Target::ListMenus,
        ),
        path_segments(path) == seq!["menus"@, "create"@] ==> dispatch_spec(Method::Post, path)
            == Some(Target::CreateMenu),
        path_segments(path) == seq!["orders"@] ==> dispatch_spec(Method::Get, path) == Some(
            Target::ListOrders,
        ),
        path_segments(path) == seq!["orders"@, "create"@] ==> dispatch_spec(Method::Post, path)
            == Some(Target::CreateOrder),
        integer_of(first) matches Some(table_id) ==> (path_segments(path) == seq![
            "tables"@,
            first,
            "items"@,
        ] ==> dispatch_spec(Method::Get, path) == Some(
            Target::ListOrderItemsForTable { table_id },
        )),
        integer_of(first) matches Some(table_id) ==> (integer_of(second) matches Some(menu_id)
            ==> (path_segments(path) == seq!["tables"@, first, "items"@, second] ==> dispatch_spec(
            Method::Get,
            path,
        ) == Some(Target::GetOrderItemForTable { table_id, menu_id }))),
        integer_of(first) matches Some(table_id) ==> (integer_of(second) matches Some(menu_id)
            ==> (path_segments(path) == seq!["orders"@, first, "items"@, second] ==> dispatch_spec(
            Method::Delete,
            path,
        ) == Some(Target::DeleteOrderItem { table_id, menu_id }))),
{
    let t = restaurant_table();
    let segments = path_segments(path);
    assert(t.len() == 9);
    reveal_with_fuel(captures, 5);
    lemma_dispatch_exact(Method::Get, path);
    lemma_dispatch_exact(Method::Post, path);
    lemma_dispatch_exact(Method::Delete, path);
    if segments == seq!["tables"@] {
        assert(route_accepts(t[3], Method::Get, path));
    }
    if segments == seq!["tables"@, "create"@] {
        assert(route_accepts(t[1], Method::Post, path));
    }
    if segments == seq!["menu"@] {
        assert(route_accepts(t[4], Method::Get, path));
    }
    if segments == seq!["menus"@, "create"@] {
        assert(route_accepts(t[2], Method::Post, path));
    }
    if segments == seq!["orders"@] {
        assert(route_accepts(t[5], Method::Get, path));
    }
    if segments == seq!["orders"@, "create"@] {
        assert(route_accepts(t[0], Method::Post, path));
    }
    if integer_of(first) is Some {
        if segments == seq!["tables"@, first, "items"@] {
            assert(route_accepts(t[7], Method::Get, path));
        }
        if integer_of(second) is Some {
            if segments == seq!["tables"@, first, "items"@, second] {
                assert(route_accepts(t[8], Method::Get, path));
            }
            if segments == seq!["orders"@, first, "items"@, second] {
                assert(route_accepts(t[6], Method::Delete, path));
            }
        }
    }
}

/// The number of integer places in a pattern.
pub open spec fn integer_places(pattern: Seq<SegmentData>) -> nat
    decreases pattern.len(),
{
    if pattern.len() == 0 {
        0
    } else {
        integer_places(pattern.drop_last()) + if pattern.last() is Integer {
            1nat
        } else {
            0nat
        }
    }
}

/// A pattern that accepts a path captures one integer for each of its integer
/// places.
pub proof fn lemma_captures_count(pattern: Seq<SegmentData>, segments: Seq<Seq<char>>)
    requires
        pattern_accepts(pattern, segments),
    ensures
        captures(pattern, segments).len() == integer_places(pattern),
    decreases pattern.len(),
{
    if pattern.len() > 0 {
        let p = pattern.drop_last();
        let s = segments.drop_last();
        assert forall|i: int| 0 <= i < p.len() implies segment_accepts(#[trigger] p[i], s[i]) by {
            assert(segment_accepts(pattern[i], segments[i]));
        }
        lemma_captures_count(p, s);
    }
}

/// Whether `text` can stand as a literal in a pattern.
pub fn literal_is_ok(text: &str) -> (ok: bool)
    ensures
        ok == literal_ok(text@),
{
    let chars = chars_of(text);
    if chars.len() == 0 {
        return false;
    }
    let mut i: usize = 0;
    while i < chars.len()
        invariant
            i <= chars.len(),
            chars@ == text@,
            forall|k: int| 0 <= k < i ==> #[trigger] chars@[k] != '/',
        decreases chars.len() - i,
    {
        if chars[i] == '/' {
            return false;
        }
        i = i + 1;
    }
    true
}

/// Whether every literal of the route can stand in a pattern.
pub fn route_is_well_formed(route: &Route) -> (ok: bool)
    ensures
        ok == well_formed(route@),
{
    let mut i: usize = 0;
    while i < route.pattern.len()
        invariant
            i <= route.pattern.len(),
            forall|k: int| 0 <= k < i ==> segment_ok(#[trigger] route@.pattern[k]),
        decreases route.pattern.len() - i,
    {
        assert(route@.pattern[i as int] == route.pattern@[i as int]@);
        match &route.pattern[i] {
            Segment::Literal(text) => {
                if !literal_is_ok(text) {
                    return false;
                }
            },
            Segment::Integer => {},
        }
        i = i + 1;
    }
    true
}

/// Whether some text fits both places.
pub fn segments_clash(a: &Segment, b: &Segment) -> (clash: bool)
    ensures
        clash == segments_overlap(a@, b@),
{
    match (a, b) {
        (Segment::Literal(x), Segment::Literal(y)) => same_text(&chars_of(x), &chars_of(y)),
        (Segment::Literal(x), Segment::Integer) => parse_i64(&chars_of(x)).is_some(),
        (Segment::Integer, Segment::Literal(y)) => parse_i64(&chars_of(y)).is_some(),
        (Segment::Integer, Segment::Integer) => true,
    }
}

/// Whether two routes take the same method and overlap at every place.
pub fn routes_clash(a: &Route, b: &Route) -> (clash: bool)
    ensures
        clash == routes_overlap(a@, b@),
{
    if a.method != b.method || a.pattern.len() != b.pattern.len() {
        return false;
    }
    let mut i: usize = 0;
    while i < a.pattern.len()
        invariant
            a.pattern.len() == b.pattern.len(),
            i <= a.pattern.len(),
            forall|k: int| 0 <= k < i ==> segments_overlap(#[trigger] a@.pattern[k], b@.pattern[k]),
        decreases a.pattern.len() - i,
    {
        assert(a@.pattern[i as int] == a.pattern@[i as int]@);
        if !segments_clash(&a.pattern[i], &b.pattern[i]) {
            return false;
        }
        i = i + 1;
    }
    true
}

/// Checks a route table before it is used: every route must be well-formed
/// and no request may be accepted by two routes. Reports the first route
/// that is not well-formed, or else the first pair of routes that share a
/// request.
pub fn validate_routes(table: &Vec<Route>) -> (r: Result<(), TableFault>)
    ensures
        r is Ok <==> all_well_formed(routes_view(table@)) && unambiguous(routes_view(table@)),
        match r {
            Ok(_) => true,
            Err(TableFault::BadLiteral { route }) => {
                &&& route < table.len()
                &&& !well_formed(table@[route as int]@)
                &&& forall|k: int| 0 <= k < route ==> well_formed(#[trigger] table@[k]@)
            },
            Err(TableFault::Ambiguous { first, second }) => {
                &&& first < second < table.len()
                &&& all_well_formed(routes_view(table@))
                &&& routes_overlap(table@[first as int]@, table@[second as int]@)
                &&& forall|i: int, j: int|
                    0 <= i < j < table.len() && pair_before(i, j, first as int, second as int)
                        ==> !routes_overlap(#[trigger] table@[i]@, #[trigger] table@[j]@)
            },
        },
{
    let ghost t = routes_view(table@);
    let n = table.len();
    let mut k: usize = 0;
    while k < n
        invariant
            n == table.len(),
            k <= n,
            t == routes_view(table@),
            forall|m: int| 0 <= m < k ==> well_formed(#[trigger] table@[m]@),
        decreases n - k,
    {
        if !route_is_well_formed(&table[k]) {
            assert(t[k as int] == table@[k as int]@);
            return Err(TableFault::BadLiteral { route: k });
        }
        k = k + 1;
    }
    assert forall|m: int| 0 <= m < t.len() implies well_formed(#[trigger] t[m]) by {
        assert(t[m] == table@[m]@);
    }
    let mut i: usize = 0;
    while i < n
        invariant
            n == table.len(),
            i <= n,
            t == routes_view(table@),
            all_well_formed(t),
            forall|a: int, b: int|
                0 <= a < b < n && a < i ==> !routes_overlap(
                    #[trigger] table@[a]@,
                    #[trigger] table@[b]@,
                ),
        decreases n - i,
    {
        let mut j: usize = i + 1;
        while j < n
            invariant
                n == table.len(),
                i < n,
                i < j <= n,
                t == routes_view(table@),
                all_well_formed(t),
                forall|a: int, b: int|
                    0 <= a < b < n && pair_before(a, b, i as int, j as int) ==> !routes_overlap(
                        #[trigger] table@[a]@,
                        #[trigger] table@[b]@,
                    ),
            decreases n - j,
        {
            if routes_clash(&table[i], &table[j]) {
                proof {
                    assert(t[i as int] == table@[i as int]@);
                    assert(t[j as int] == table@[j as int]@);
                    lemma_unambiguous_iff_no_overlap(t);
                }
                return Err(TableFault::Ambiguous { first: i, second: j });
            }
            j = j + 1;
        }
        i = i + 1;
    }
    proof {
        assert forall|a: int, b: int| 0 <= a < b < t.len() implies !routes_overlap(
            #[trigger] t[a],
            #[trigger] t[b],
        ) by {
            assert(t[a] == table@[a]@);
            assert(t[b] == table@[b]@);
        }
        lemma_unambiguous_iff_no_overlap(t);
    }
    Ok(())
}

} // verus!
