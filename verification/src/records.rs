//! The record store: the ordered collection of dashboard rows.
//!
//! A `Data` value is one dashboard entry with a fixed, ordered set of three
//! display fields (name, address, email).  The store is populated with
//! placeholder records drawn from a generator and is kept sorted
//! non-decreasingly by the primary display field (the name), so the display
//! order is deterministic for any generated batch.

use vstd::prelude::*;
use vstd::string::StrSliceExecFns;
use vstd::string::StringExecFns;

verus! {

/// One dashboard entry: a fixed-arity, ordered list of display fields.
pub struct Data {
    pub name: String,
    pub address: String,
    pub email: String,
}

impl Data {
    /// The display fields in declared column order: name, address, email.
    pub fn ref_array(&self) -> (r: [&String; 3])
        ensures
            r[0]@ == self.name@,
            r[1]@ == self.address@,
            r[2]@ == self.email@,
    {
        [&self.name, &self.address, &self.email]
    }

    pub fn name(&self) -> (r: &str)
        ensures
            r@ == self.name@,
    {
        self.name.as_str()
    }

    pub fn address(&self) -> (r: &str)
        ensures
            r@ == self.address@,
    {
        self.address.as_str()
    }

    pub fn email(&self) -> (r: &str)
        ensures
            r@ == self.email@,
    {
        self.email.as_str()
    }
}

/// Lexicographic order on character sequences by code point, the order the
/// record store sorts by.
pub open spec fn lex_le(a: Seq<char>, b: Seq<char>) -> bool
    decreases a.len(),
{
    if a.len() == 0 {
        true
    } else if b.len() == 0 {
        false
    } else if (a[0] as u32) < (b[0] as u32) {
        true
    } else if (b[0] as u32) < (a[0] as u32) {
        false
    } else {
        lex_le(a.skip(1), b.skip(1))
    }
}

/// `lex_le` is total: any two sequences compare one way or the other.
pub proof fn lemma_lex_le_total(a: Seq<char>, b: Seq<char>)
    ensures
        lex_le(a, b) || lex_le(b, a),
    decreases a.len(),
{
    if a.len() == 0 {
    } else if b.len() == 0 {
    } else if (a[0] as u32) < (b[0] as u32) {
    } else if (b[0] as u32) < (a[0] as u32) {
    } else {
        lemma_lex_le_total(a.skip(1), b.skip(1));
    }
}

/// The store's ordering invariant: adjacent records are in non-decreasing
/// name order.
pub open spec fn sorted_by_name(s: Seq<Data>) -> bool {
    forall|i: int| 0 <= i && i + 1 < s.len() ==> #[trigger] lex_le(s[i].name@, s[i + 1].name@)
}

/// Compare two strings in the store's lexicographic order.
pub fn str_le(a: &str, b: &str) -> (r: bool)
    ensures
        r == lex_le(a@, b@),
{
    let alen = a.unicode_len();
    let blen = b.unicode_len();
    let mut i: usize = 0;
    proof {
        assert(a@.skip(0) =~= a@);
        assert(b@.skip(0) =~= b@);
    }
    while i < alen && i < blen
        invariant
            i <= alen,
            i <= blen,
            alen == a@.len(),
            blen == b@.len(),
            lex_le(a@, b@) == lex_le(a@.skip(i as int), b@.skip(i as int)),
        decreases alen - i,
    {
        let ca = a.get_char(i);
        let cb = b.get_char(i);
        if (ca as u32) < (cb as u32) {
            return true;
        }
        if (cb as u32) < (ca as u32) {
            return false;
        }
        proof {
            assert(a@.skip(i as int).skip(1) =~= a@.skip(i as int + 1));
            assert(b@.skip(i as int).skip(1) =~= b@.skip(i as int + 1));
        }
        i += 1;
    }
    i >= alen
}

/// Insert one record into an already sorted store, keeping it sorted.
fn insert_sorted(v: &mut Vec<Data>, x: Data)
    requires
        sorted_by_name(old(v)@),
    ensures
        sorted_by_name(final(v)@),
        final(v)@.len() == old(v)@.len() + 1,
        final(v)@.to_multiset() == old(v)@.to_multiset().insert(x),
{
    let ghost orig = v@;
    let mut i: usize = 0;
    while i < v.len() && str_le(v[i].name.as_str(), x.name.as_str())
        invariant
            v@ == orig,
            i <= v@.len(),
            forall|j: int| 0 <= j < i ==> #[trigger] lex_le(v@[j].name@, x.name@),
        decreases v@.len() - i,
    {
        i += 1;
    }
    proof {
        if (i as int) < orig.len() {
            lemma_lex_le_total(orig[i as int].name@, x.name@);
        }
    }
    v.insert(i, x);
    proof {
        let s = orig.insert(i as int, x);
        assert(v@ == s);
        orig.insert_ensures(i as int, x);
        assert forall|k: int| 0 <= k && k + 1 < s.len() implies #[trigger] lex_le(
            s[k].name@,
            s[k + 1].name@,
        ) by {
            if k + 1 < i {
                assert(lex_le(orig[k].name@, orig[k + 1].name@));
            } else if k + 1 == i {
                assert(s[k] == orig[k]);
                assert(s[k + 1] == x);
            } else if k == i {
                assert(s[k] == x);
                assert(s[k + 1] == orig[k]);
                assert(lex_le(x.name@, orig[k].name@));
            } else {
                assert(s[k] == orig[k - 1]);
                assert(s[k + 1] == orig[k]);
                assert(lex_le(orig[k - 1].name@, orig[k].name@));
            }
        };
        lemma_insert_multiset(orig, i as int, x);
    }
}

/// Inserting into a sequence adds exactly one occurrence to its multiset.
proof fn lemma_insert_multiset(s: Seq<Data>, i: int, x: Data)
    requires
        0 <= i <= s.len(),
    ensures
        s.insert(i, x).to_multiset() == s.to_multiset().insert(x),
{
    broadcast use vstd::seq_lib::group_to_multiset_ensures;

    let s2 = s.insert(i, x);
    assert(s2.remove(i) =~= s);
    assert(s2[i] == x);
    assert(s2.to_multiset().remove(x) =~= s.to_multiset());
    assert(s2.to_multiset().contains(x));
    assert(s2.to_multiset() =~= s.to_multiset().insert(x));
}

/// Sort a batch of records by name.  The result is the same multiset of
/// records, in non-decreasing name order.
pub fn sort_records(records: Vec<Data>) -> (r: Vec<Data>)
    ensures
        sorted_by_name(r@),
        r@.len() == records@.len(),
        r@.to_multiset() == records@.to_multiset(),
{
    broadcast use vstd::seq_lib::group_to_multiset_ensures;

    let ghost orig = records@;
    let mut rest = records;
    let mut out: Vec<Data> = Vec::new();
    proof {
        assert(out@.to_multiset().add(rest@.to_multiset()) =~= rest@.to_multiset());
    }
    while rest.len() > 0
        invariant
            sorted_by_name(out@),
            out@.len() + rest@.len() == orig.len(),
            out@.to_multiset().add(rest@.to_multiset()) == orig.to_multiset(),
        decreases rest@.len(),
    {
        let ghost before = rest@;
        let x = rest.pop().unwrap();
        proof {
            assert(before.drop_last().push(x) =~= before);
            before.drop_last().to_multiset_ensures();
            assert(before.drop_last().push(x).to_multiset() =~= before.drop_last().to_multiset()
                .insert(x));
            assert(before.drop_last().to_multiset().insert(x) =~= before.to_multiset());
        }
        let ghost out_before = out@;
        insert_sorted(&mut out, x);
        proof {
            assert(out@.to_multiset().add(rest@.to_multiset()) =~= out_before.to_multiset().insert(
                x,
            ).add(before.drop_last().to_multiset()));
            assert(out_before.to_multiset().insert(x).add(before.drop_last().to_multiset())
                =~= out_before.to_multiset().add(before.to_multiset()));
        }
    }
    out
}

/// Relies on fakeit's name::full: a freshly drawn placeholder person name.
/// The draw is random, so nothing is promised of the value.
#[verifier::external_body]
fn fake_full_name() -> String {
    fakeit::name::full()
}

/// Relies on fakeit's address::street: a freshly drawn placeholder street.
#[verifier::external_body]
fn fake_street() -> String {
    fakeit::address::street()
}

/// Relies on fakeit's address::city: a freshly drawn placeholder city.
#[verifier::external_body]
fn fake_city() -> String {
    fakeit::address::city()
}

/// Relies on fakeit's address::state: a freshly drawn placeholder state.
#[verifier::external_body]
fn fake_state() -> String {
    fakeit::address::state()
}

/// Relies on fakeit's address::zip: a freshly drawn placeholder zip code.
#[verifier::external_body]
fn fake_zip() -> String {
    fakeit::address::zip()
}

/// Relies on fakeit's contact::email: a freshly drawn placeholder email.
#[verifier::external_body]
fn fake_email() -> String {
    fakeit::contact::email()
}

/// The display form of an address: street on its own line, then
/// "city, state zip".
pub open spec fn address_display(
    street: Seq<char>,
    city: Seq<char>,
    state: Seq<char>,
    zip: Seq<char>,
) -> Seq<char> {
    street + "\n"@ + city + ", "@ + state + " "@ + zip
}

/// Join the address parts into the single display field.
pub fn compose_address(street: &str, city: &str, state: &str, zip: &str) -> (r: String)
    ensures
        r@ == address_display(street@, city@, state@, zip@),
{
    let mut r = String::from_str(street);
    r.append("\n");
    r.append(city);
    r.append(", ");
    r.append(state);
    r.append(" ");
    r.append(zip);
    r
}

/// Draw one placeholder record.  Its fields are random; only the shape of
/// the address field is fixed.
fn generate_one() -> (r: Data)
    ensures
        exists|street: Seq<char>, city: Seq<char>, state: Seq<char>, zip: Seq<char>|
            r.address@ == address_display(street, city, state, zip),
{
    let street = fake_street();
    let city = fake_city();
    let state = fake_state();
    let zip = fake_zip();
    let address = compose_address(street.as_str(), city.as_str(), state.as_str(), zip.as_str());
    Data { name: fake_full_name(), address, email: fake_email() }
}

/// Populate the store: draw `n` placeholder records and sort them by name,
/// so a generated batch always shows in a deterministic order.  For any
/// `n`, the result holds exactly `n` records, in non-decreasing name order.
pub fn generate_fake_names(n: usize) -> (r: Vec<Data>)
    ensures
        r@.len() == n,
        sorted_by_name(r@),
{
    let mut raw: Vec<Data> = Vec::new();
    let mut i: usize = 0;
    while i < n
        invariant
            i <= n,
            raw@.len() == i,
        decreases n - i,
    {
        raw.push(generate_one());
        i += 1;
    }
    sort_records(raw)
}

} // verus!
