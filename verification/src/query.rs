//! The query translator.
//!
//! Compiles a [`QueryOptions`](crate::QueryOptions) into store-query
//! fragments: a projection (every field, an explicit field list plus the
//! identity fields, or the identity fields alone), an equality filter on the
//! `name` attribute whose value is always passed as a bound parameter, and
//! `limit`/`offset` pagination clauses.

use vstd::prelude::*;
use vstd::string::StrSliceExecFns;
use vstd::string::StringExecFns;

use crate::QueryOptions;
use crate::item::view_opt;

verus! {

/// The views of a sequence of strings.
pub open spec fn str_views(v: Seq<String>) -> Seq<Seq<char>> {
    v.map_values(|s: String| s@)
}

/// Splitting a character sequence at every comma: the token list grows by one
/// empty token at each comma, and the last token otherwise extends by the
/// character read.
pub open spec fn split_commas_spec(s: Seq<char>) -> Seq<Seq<char>>
    decreases s.len(),
{
    if s.len() == 0 {
        seq![Seq::<char>::empty()]
    } else if s.last() == ',' {
        split_commas_spec(s.drop_last()).push(Seq::<char>::empty())
    } else {
        let rest = split_commas_spec(s.drop_last());
        rest.update(rest.len() - 1, rest.last().push(s.last()))
    }
}

/// The split of any input holds at least one token.
pub proof fn lemma_split_commas_len(s: Seq<char>)
    ensures
        split_commas_spec(s).len() >= 1,
    decreases s.len(),
{
    if s.len() > 0 {
        lemma_split_commas_len(s.drop_last());
    }
}

/// Splits a string at every comma.  Two adjacent commas yield an empty
/// token; an input without commas yields the single token `s`.
pub fn split_commas(s: &str) -> (r: Vec<String>)
    ensures
        str_views(r@) == split_commas_spec(s@),
{
    let n = s.unicode_len();
    let mut done: Vec<String> = Vec::new();
    let mut start: usize = 0;
    let mut i: usize = 0;
    proof {
        assert(s@.take(0) =~= Seq::<char>::empty());
        assert(str_views(done@) =~= split_commas_spec(s@.take(0)).drop_last());
        assert(split_commas_spec(s@.take(0)).last() =~= s@.subrange(0, 0));
    }
    while i < n
        invariant
            0 <= start <= i <= n,
            n == s@.len(),
            split_commas_spec(s@.take(i as int)).len() == done@.len() + 1,
            str_views(done@) == split_commas_spec(s@.take(i as int)).drop_last(),
            split_commas_spec(s@.take(i as int)).last() == s@.subrange(start as int, i as int),
        decreases n - i,
    {
        let ghost pre = split_commas_spec(s@.take(i as int));
        proof {
            lemma_split_commas_len(s@.take(i + 1));
            assert(s@.take(i + 1).drop_last() =~= s@.take(i as int));
            assert(s@.take(i + 1).last() == s@[i as int]);
        }
        let c = s.get_char(i);
        if c == ',' {
            let ghost old_start = start as int;
            let tok: String = s.substring_char(start, i).to_owned();
            done.push(tok);
            start = i + 1;
            proof {
                let post = split_commas_spec(s@.take(i + 1));
                assert(post =~= pre.push(Seq::<char>::empty()));
                assert(post.drop_last() =~= pre);
                assert(done@.last()@ == s@.subrange(old_start, i as int));
                assert(str_views(done@) =~= str_views(done@.drop_last()).push(done@.last()@));
                assert(pre =~= pre.drop_last().push(pre.last()));
                assert(str_views(done@) =~= pre);
                assert(post.last() =~= s@.subrange(start as int, i + 1));
            }
        } else {
            proof {
                let post = split_commas_spec(s@.take(i + 1));
                assert(post =~= pre.update(pre.len() - 1, pre.last().push(s@[i as int])));
                assert(post.drop_last() =~= pre.drop_last());
                assert(post.last() =~= s@.subrange(start as int, i + 1));
            }
        }
        i = i + 1;
    }
    proof {
        assert(s@.take(n as int) =~= s@);
    }
    let tok: String = s.substring_char(start, n).to_owned();
    done.push(tok);
    proof {
        let whole = split_commas_spec(s@);
        assert(str_views(done@) =~= str_views(done@.drop_last()).push(s@.subrange(
            start as int,
            n as int,
        )));
        assert(str_views(done@) =~= whole.drop_last().push(whole.last()));
        assert(str_views(done@) =~= whole);
    }
    done
}

/// The field selection a query asks for, by the caller's `fields` value:
/// absent means "project everything" (`None`); the empty string or the
/// sentinel `none` mean "identity fields only" (`Some` of the empty list);
/// anything else is the comma-separated list of field names.
pub open spec fn fields_selection_spec(fields: Option<Seq<char>>) -> Option<Seq<Seq<char>>> {
    match fields {
        None => None,
        Some(f) => if f == "none"@ || f.len() == 0 {
            Some(Seq::<Seq<char>>::empty())
        } else {
            Some(split_commas_spec(f))
        },
    }
}

/// The decimal digit character for a value below ten.
pub open spec fn dec_digit(d: nat) -> char {
    if d == 0 {
        '0'
    } else if d == 1 {
        '1'
    } else if d == 2 {
        '2'
    } else if d == 3 {
        '3'
    } else if d == 4 {
        '4'
    } else if d == 5 {
        '5'
    } else if d == 6 {
        '6'
    } else if d == 7 {
        '7'
    } else if d == 8 {
        '8'
    } else {
        '9'
    }
}

/// The decimal representation of a number, most significant digit first,
/// without leading zeroes (a lone zero for zero itself).
pub open spec fn dec_rep(n: nat) -> Seq<char>
    decreases n,
{
    if n < 10 {
        seq![dec_digit(n)]
    } else {
        dec_rep(n / 10).push(dec_digit(n % 10))
    }
}

/// The one-character string for a decimal digit.
fn digit_str(d: u64) -> (r: &'static str)
    requires
        d < 10,
    ensures
        r@ == seq![dec_digit(d as nat)],
{
    proof {
        reveal_strlit("0");
        reveal_strlit("1");
        reveal_strlit("2");
        reveal_strlit("3");
        reveal_strlit("4");
        reveal_strlit("5");
        reveal_strlit("6");
        reveal_strlit("7");
        reveal_strlit("8");
        reveal_strlit("9");
        assert("0"@ =~= seq![dec_digit(0)]);
        assert("1"@ =~= seq![dec_digit(1)]);
        assert("2"@ =~= seq![dec_digit(2)]);
        assert("3"@ =~= seq![dec_digit(3)]);
        assert("4"@ =~= seq![dec_digit(4)]);
        assert("5"@ =~= seq![dec_digit(5)]);
        assert("6"@ =~= seq![dec_digit(6)]);
        assert("7"@ =~= seq![dec_digit(7)]);
        assert("8"@ =~= seq![dec_digit(8)]);
        assert("9"@ =~= seq![dec_digit(9)]);
    }
    match d {
        0 => "0",
        1 => "1",
        2 => "2",
        3 => "3",
        4 => "4",
        5 => "5",
        6 => "6",
        7 => "7",
        8 => "8",
        _ => "9",
    }
}

/// Appends the decimal representation of `n` to `s`.
fn push_decimal(s: &mut String, n: u64)
    ensures
        final(s)@ == old(s)@ + dec_rep(n as nat),
    decreases n,
{
    if n >= 10 {
        push_decimal(s, n / 10);
    }
    let ghost mid = s@;
    s.append(digit_str(n % 10));
    proof {
        if n < 10 {
            assert(s@ =~= old(s)@ + dec_rep(n as nat));
        } else {
            assert(mid == old(s)@ + dec_rep((n / 10) as nat));
            assert(s@ =~= old(s)@ + dec_rep(n as nat));
        }
    }
}

/// Renders a number in decimal.
pub fn u64_to_string(n: u64) -> (r: String)
    ensures
        r@ == dec_rep(n as nat),
{
    let mut s = String::new();
    push_decimal(&mut s, n);
    proof {
        assert(s@ =~= dec_rep(n as nat));
    }
    s
}

/// The filter clause a query carries: an equality match on the `name`
/// attribute whose value is bound to the `$name` parameter, never written
/// into the statement itself.
pub open spec fn filter_clause_spec(name: Option<Seq<char>>) -> Seq<char> {
    match name {
        Some(_) => "WHERE item.name = $name"@,
        None => Seq::<char>::empty(),
    }
}

/// The pagination clause taking at most `l` records.
pub open spec fn limit_clause_spec(l: Option<u16>) -> Seq<char> {
    match l {
        Some(n) => "LIMIT BY "@ + dec_rep(n as nat),
        None => Seq::<char>::empty(),
    }
}

/// The pagination clause skipping the first `o` records.
pub open spec fn offset_clause_spec(o: Option<u16>) -> Seq<char> {
    match o {
        Some(n) => "START AT "@ + dec_rep(n as nat),
        None => Seq::<char>::empty(),
    }
}

/// A store-query fragment: the statement text and the value bound to its
/// `$name` parameter, if the statement carries the filter clause.
pub struct StoreQuery {
    /// The statement text.
    pub statement: String,
    /// The bound parameter, as its name and its value.
    pub binding: Option<(String, String)>,
}

/// Turns the caller's `name` value into the filter clause and its bound
/// value.  The caller's value travels only in the binding, so it cannot
/// change the shape of the statement.
pub fn query_to_filter(query_opts: &QueryOptions) -> (r: (String, Option<String>))
    ensures
        r.0@ == filter_clause_spec(view_opt(query_opts.name)),
        view_opt(r.1) == view_opt(query_opts.name),
{
    match &query_opts.name {
        Some(n) => (String::from_str("WHERE item.name = $name"), Some(n.clone())),
        None => (String::new(), None),
    }
}

/// Renders the `LIMIT BY` clause, empty when no limit is asked for.
pub fn limit_clause(l: Option<u16>) -> (r: String)
    ensures
        r@ == limit_clause_spec(l),
{
    match l {
        Some(n) => {
            let mut s = String::from_str("LIMIT BY ");
            push_decimal(&mut s, n as u64);
            s
        },
        None => String::new(),
    }
}

/// Renders the `START AT` clause, empty when no offset is asked for.
pub fn offset_clause(o: Option<u16>) -> (r: String)
    ensures
        r@ == offset_clause_spec(o),
{
    match o {
        Some(n) => {
            let mut s = String::from_str("START AT ");
            push_decimal(&mut s, n as u64);
            s
        },
        None => String::new(),
    }
}

/// The projection fragment naming each requested field under the envelope's
/// `item` object: one `,item.<name>` per field.
pub open spec fn field_fragment_spec(names: Seq<Seq<char>>) -> Seq<char>
    decreases names.len(),
{
    if names.len() == 0 {
        Seq::<char>::empty()
    } else {
        field_fragment_spec(names.drop_last()) + ",item."@ + names.last()
    }
}

/// Renders the projection fragment for an explicit field list.
pub fn field_fragment(names: &Vec<String>) -> (r: String)
    ensures
        r@ == field_fragment_spec(str_views(names@)),
{
    let mut s = String::new();
    let n = names.len();
    let mut i: usize = 0;
    proof {
        assert(str_views(names@.take(0)) =~= Seq::<Seq<char>>::empty());
        assert(s@ =~= field_fragment_spec(str_views(names@.take(0))));
    }
    while i < n
        invariant
            0 <= i <= n,
            n == names@.len(),
            s@ == field_fragment_spec(str_views(names@.take(i as int))),
        decreases n - i,
    {
        s.append(",item.");
        s.append(names[i].as_str());
        proof {
            assert(str_views(names@.take(i + 1)).drop_last() =~= str_views(names@.take(i as int)));
            assert(str_views(names@.take(i + 1)).last() == names@[i as int]@);
            assert(s@ =~= field_fragment_spec(str_views(names@.take(i + 1))));
        }
        i = i + 1;
    }
    proof {
        assert(names@.take(n as int) =~= names@);
    }
    s
}

/// The statement listing a collection with every field projected.
pub open spec fn list_statement_spec(
    class: Seq<char>,
    name: Option<Seq<char>>,
    limit: Option<u16>,
    offset: Option<u16>,
) -> Seq<char> {
    "SELECT * FROM "@ + class + " "@ + filter_clause_spec(name) + " "@ + limit_clause_spec(limit)
        + " "@ + offset_clause_spec(offset)
}

/// The statement listing a collection with the identity fields and an
/// explicit field list projected.
pub open spec fn list_fields_statement_spec(
    class: Seq<char>,
    names: Seq<Seq<char>>,
    name: Option<Seq<char>>,
    limit: Option<u16>,
    offset: Option<u16>,
) -> Seq<char> {
    "SELECT item.id, item.href "@ + field_fragment_spec(names) + " FROM "@ + class + " "@
        + filter_clause_spec(name) + " "@ + limit_clause_spec(limit) + " "@ + offset_clause_spec(
        offset,
    )
}

/// The statement reading one record by its class-qualified key.
pub open spec fn get_statement_spec(class: Seq<char>, id: Seq<char>) -> Seq<char> {
    "SELECT * FROM "@ + class + ":"@ + id
}

/// The statement reading one record with an explicit field list projected.
pub open spec fn get_fields_statement_spec(
    class: Seq<char>,
    names: Seq<Seq<char>>,
    id: Seq<char>,
) -> Seq<char> {
    "SELECT item.id, item.href "@ + field_fragment_spec(names) + " FROM "@ + class + ":"@ + id
}

/// Compiles a list request into its statement and binding.
pub fn build_list_query(class: &str, query_opts: &QueryOptions) -> (r: StoreQuery)
    ensures
        r.statement@ == list_statement_spec(
            class@,
            view_opt(query_opts.name),
            query_opts.limit,
            query_opts.offset,
        ),
        query_binding_ok(r, view_opt(query_opts.name)),
{
    let (filter, bound) = query_to_filter(query_opts);
    let mut s = String::from_str("SELECT * FROM ");
    s.append(class);
    s.append(" ");
    s.append(filter.as_str());
    s.append(" ");
    let lim = limit_clause(query_opts.limit);
    s.append(lim.as_str());
    s.append(" ");
    let off = offset_clause(query_opts.offset);
    s.append(off.as_str());
    StoreQuery { statement: s, binding: make_binding(bound) }
}

/// Compiles a list request with an explicit field list into its statement
/// and binding.
pub fn build_list_fields_query(class: &str, names: &Vec<String>, query_opts: &QueryOptions) -> (r:
    StoreQuery)
    ensures
        r.statement@ == list_fields_statement_spec(
            class@,
            str_views(names@),
            view_opt(query_opts.name),
            query_opts.limit,
            query_opts.offset,
        ),
        query_binding_ok(r, view_opt(query_opts.name)),
{
    let (filter, bound) = query_to_filter(query_opts);
    let mut s = String::from_str("SELECT item.id, item.href ");
    let frag = field_fragment(names);
    s.append(frag.as_str());
    s.append(" FROM ");
    s.append(class);
    s.append(" ");
    s.append(filter.as_str());
    s.append(" ");
    let lim = limit_clause(query_opts.limit);
    s.append(lim.as_str());
    s.append(" ");
    let off = offset_clause(query_opts.offset);
    s.append(off.as_str());
    StoreQuery { statement: s, binding: make_binding(bound) }
}

/// Compiles a read of one record into its statement.
pub fn build_get_query(class: &str, id: &str) -> (r: StoreQuery)
    ensures
        r.statement@ == get_statement_spec(class@, id@),
        r.binding is None,
{
    let mut s = String::from_str("SELECT * FROM ");
    s.append(class);
    s.append(":");
    s.append(id);
    StoreQuery { statement: s, binding: None }
}

/// Compiles a read of one record with an explicit field list into its
/// statement.
pub fn build_get_fields_query(class: &str, names: &Vec<String>, id: &str) -> (r: StoreQuery)
    ensures
        r.statement@ == get_fields_statement_spec(class@, str_views(names@), id@),
        r.binding is None,
{
    let mut s = String::from_str("SELECT item.id, item.href ");
    let frag = field_fragment(names);
    s.append(frag.as_str());
    s.append(" FROM ");
    s.append(class);
    s.append(":");
    s.append(id);
    StoreQuery { statement: s, binding: None }
}

/// The binding carries the filter value exactly when the query filters on a
/// name, under the parameter `name`.
pub open spec fn query_binding_ok(r: StoreQuery, name: Option<Seq<char>>) -> bool {
    match name {
        Some(n) => r.binding matches Some(b) && b.0@ == "name"@ && b.1@ == n,
        None => r.binding is None,
    }
}

/// Pairs a bound filter value with its parameter name.
fn make_binding(bound: Option<String>) -> (r: Option<(String, String)>)
    ensures
        match bound {
            Some(n) => r matches Some(b) && b.0@ == "name"@ && b.1@ == n@,
            None => r is None,
        },
{
    match bound {
        Some(v) => Some((String::from_str("name"), v)),
        None => None,
    }
}

/// Turns the caller's `fields` value into the list of field names to
/// project, or `None` when every field is wanted: see
/// [`fields_selection_spec`].
pub fn query_to_fields(query_opts: &QueryOptions) -> (r: Option<Vec<String>>)
    ensures
        match r {
            None => fields_selection_spec(view_opt(query_opts.fields)) is None,
            Some(v) => fields_selection_spec(view_opt(query_opts.fields)) == Some(str_views(v@)),
        },
{
    match &query_opts.fields {
        Some(f) => {
            if *f == String::from_str("none") || f.unicode_len() == 0 {
                let out: Vec<String> = Vec::new();
                proof {
                    assert(str_views(out@) =~= Seq::<Seq<char>>::empty());
                }
                Some(out)
            } else {
                Some(split_commas(f.as_str()))
            }
        },
        None => None,
    }
}

} // verus!
