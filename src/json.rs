use vstd::prelude::*;
use crate::types::{KeyValue, TransactionRequest};

verus! {

/// The lowercase hexadecimal digit of `n`, for `n < 16`.
pub open spec fn hex_digit(n: int) -> char {
    "0123456789abcdef"@[n]
}

/// How one character stands inside a JSON string literal.
pub open spec fn escape_char(c: char) -> Seq<char> {
    if c == '"' {
        seq!['\\', '"']
    } else if c == '\\' {
        seq!['\\', '\\']
    } else if c == '\n' {
        seq!['\\', 'n']
    } else if c == '\r' {
        seq!['\\', 'r']
    } else if c == '\t' {
        seq!['\\', 't']
    } else if c == '\x08' {
        seq!['\\', 'b']
    } else if c == '\x0c' {
        seq!['\\', 'f']
    } else if (c as u32) < 0x20 {
        seq!['\\', 'u', '0', '0', hex_digit((c as u32) as int / 16), hex_digit((c as u32) as int % 16)]
    } else {
        seq![c]
    }
}

/// The characters of `s`, each escaped.
pub open spec fn escape(s: Seq<char>) -> Seq<char>
    decreases s.len(),
{
    if s.len() == 0 {
        Seq::empty()
    } else {
        escape(s.drop_last()) + escape_char(s.last())
    }
}

/// `s` as a JSON string literal.
pub open spec fn json_str(s: Seq<char>) -> Seq<char> {
    seq!['"'] + escape(s) + seq!['"']
}

/// A key-value pair as a JSON object.
pub open spec fn json_key_value(kv: KeyValue) -> Seq<char> {
    "{\"key\":"@ + json_str(kv.key@) + ",\"value\":"@ + json_str(kv.value@) + "}"@
}

/// The pairs as JSON objects, separated by commas, in their order.
pub open spec fn json_key_value_items(s: Seq<KeyValue>) -> Seq<char>
    decreases s.len(),
{
    if s.len() == 0 {
        Seq::empty()
    } else if s.len() == 1 {
        json_key_value(s[0])
    } else {
        json_key_value_items(s.drop_last()) + ","@ + json_key_value(s.last())
    }
}

/// The pairs as a JSON array.
pub open spec fn json_key_values(s: Seq<KeyValue>) -> Seq<char> {
    "["@ + json_key_value_items(s) + "]"@
}

/// The wire JSON of a payment: its fields in order, named in lowerCamelCase.
pub open spec fn payment_json_of(tx: TransactionRequest) -> Seq<char> {
    "{\"amount\":"@ + (json_str(tx.amount@) + (",\"currency\":"@ + (json_str(tx.currency@) + (
    ",\"descriptionText\":"@ + (json_str(tx.description_text@) + (",\"requestDate\":"@ + (
    json_str(tx.request_date@) + (",\"debitParty\":"@ + (json_key_values(tx.debit_party@) + (
    ",\"creditParty\":"@ + (json_key_values(tx.credit_party@) + (",\"metadata\":"@ + (
    json_key_values(tx.metadata@) + (",\"requestingOrganisationTransactionReference\":"@ + (
    json_str(tx.requesting_organisation_transaction_reference@) + (
    ",\"originalTransactionReference\":"@ + (json_str(tx.original_transaction_reference@)
        + "}"@)))))))))))))))))
}

/// Appends how `c`, the character at `i` of `s`, stands in a JSON string literal.
fn push_escaped(out: &mut String, s: &str, i: usize, c: char)
    requires
        i < s@.len() <= usize::MAX,
        s@[i as int] == c,
    ensures
        final(out)@ == old(out)@ + escape_char(c),
{
    proof {
        reveal_strlit("\\\"");
        reveal_strlit("\\\\");
        reveal_strlit("\\n");
        reveal_strlit("\\r");
        reveal_strlit("\\t");
        reveal_strlit("\\b");
        reveal_strlit("\\f");
        reveal_strlit("\\u00");
        reveal_strlit("0123456789abcdef");
    }
    if c == '"' {
        out.append("\\\"");
    } else if c == '\\' {
        out.append("\\\\");
    } else if c == '\n' {
        out.append("\\n");
    } else if c == '\r' {
        out.append("\\r");
    } else if c == '\t' {
        out.append("\\t");
    } else if c == '\x08' {
        out.append("\\b");
    } else if c == '\x0c' {
        out.append("\\f");
    } else if (c as u32) < 0x20 {
        let hex = "0123456789abcdef";
        let hi = (c as u32 / 16) as usize;
        let lo = (c as u32 % 16) as usize;
        out.append("\\u00");
        out.append(hex.substring_char(hi, hi + 1));
        out.append(hex.substring_char(lo, lo + 1));
        assert(final(out)@ =~= old(out)@ + escape_char(c));
    } else {
        out.append(s.substring_char(i, i + 1));
        assert(final(out)@ =~= old(out)@ + escape_char(c));
    }
}

/// `s` as a JSON string literal.
pub fn json_string(s: &str) -> (r: String)
    ensures
        r@ == json_str(s@),
{
    let n = s.unicode_len();
    let mut out = String::from_str("\"");
    proof {
        reveal_strlit("\"");
        assert(s@.subrange(0, 0) =~= Seq::<char>::empty());
    }
    let mut i: usize = 0;
    while i < n
        invariant
            n == s@.len(),
            i <= n,
            out@ == seq!['"'] + escape(s@.subrange(0, i as int)),
        decreases n - i,
    {
        let c = s.get_char(i);
        push_escaped(&mut out, s, i, c);
        proof {
            assert(s@.subrange(0, i + 1).drop_last() =~= s@.subrange(0, i as int));
        }
        i = i + 1;
    }
    out.append("\"");
    proof {
        assert(s@.subrange(0, n as int) =~= s@);
    }
    out
}

/// A key-value pair as a JSON object.
fn json_key_value_string(kv: &KeyValue) -> (r: String)
    ensures
        r@ == json_key_value(*kv),
{
    let mut out = String::from_str("{\"key\":");
    let k = json_string(kv.key.as_str());
    out.append(k.as_str());
    out.append(",\"value\":");
    let v = json_string(kv.value.as_str());
    out.append(v.as_str());
    out.append("}");
    out
}

/// The pairs as a JSON array, in their order.
pub fn json_key_value_array(kvs: &Vec<KeyValue>) -> (r: String)
    ensures
        r@ == json_key_values(kvs@),
{
    let mut out = String::from_str("[");
    let mut i: usize = 0;
    proof {
        assert(kvs@.subrange(0, 0) =~= Seq::<KeyValue>::empty());
    }
    while i < kvs.len()
        invariant
            i <= kvs@.len(),
            out@ == "["@ + json_key_value_items(kvs@.subrange(0, i as int)),
        decreases kvs@.len() - i,
    {
        if i > 0 {
            out.append(",");
        }
        let item = json_key_value_string(&kvs[i]);
        out.append(item.as_str());
        proof {
            let next = kvs@.subrange(0, i + 1);
            assert(next.drop_last() =~= kvs@.subrange(0, i as int));
            assert(next.last() == kvs@[i as int]);
            if i == 0 {
                assert(next.len() == 1);
                assert(next[0] == kvs@[0]);
            }
        }
        i = i + 1;
    }
    out.append("]");
    proof {
        assert(kvs@.subrange(0, kvs@.len() as int) =~= kvs@);
    }
    out
}

/// The wire JSON of a payment, written from its last field to its first.
pub fn payment_json(tx: &TransactionRequest) -> (r: String)
    ensures
        r@ == payment_json_of(*tx),
{
    let t = json_string(tx.original_transaction_reference.as_str()).concat("}");
    let t = String::from_str(",\"originalTransactionReference\":").concat(t.as_str());
    let t = json_string(tx.requesting_organisation_transaction_reference.as_str()).concat(t.as_str());
    let t = String::from_str(",\"requestingOrganisationTransactionReference\":").concat(t.as_str());
    let t = json_key_value_array(&tx.metadata).concat(t.as_str());
    let t = String::from_str(",\"metadata\":").concat(t.as_str());
    let t = json_key_value_array(&tx.credit_party).concat(t.as_str());
    let t = String::from_str(",\"creditParty\":").concat(t.as_str());
    let t = json_key_value_array(&tx.debit_party).concat(t.as_str());
    let t = String::from_str(",\"debitParty\":").concat(t.as_str());
    let t = json_string(tx.request_date.as_str()).concat(t.as_str());
    let t = String::from_str(",\"requestDate\":").concat(t.as_str());
    let t = json_string(tx.description_text.as_str()).concat(t.as_str());
    let t = String::from_str(",\"descriptionText\":").concat(t.as_str());
    let t = json_string(tx.currency.as_str()).concat(t.as_str());
    let t = String::from_str(",\"currency\":").concat(t.as_str());
    let t = json_string(tx.amount.as_str()).concat(t.as_str());
    String::from_str("{\"amount\":").concat(t.as_str())
}

/// The pairs of a key-value sequence, in order.
pub open spec fn pairs_of(s: Seq<KeyValue>) -> Seq<(Seq<char>, Seq<char>)> {
    s.map_values(|kv: KeyValue| kv@)
}

proof fn lemma_escape_front(s: Seq<char>)
    requires
        s.len() > 0,
    ensures
        escape(s) == escape_char(s[0]) + escape(s.drop_first()),
    decreases s.len(),
{
    if s.len() == 1 {
        assert(s.drop_last() =~= Seq::<char>::empty());
        assert(s.drop_first() =~= Seq::<char>::empty());
        assert(escape(s) =~= escape_char(s[0]) + escape(s.drop_first()));
    } else {
        lemma_escape_front(s.drop_last());
        assert(s.drop_last().drop_first() =~= s.drop_first().drop_last());
        assert(escape(s) =~= escape_char(s[0]) + escape(s.drop_first()));
    }
}

proof fn lemma_escape_char_shape(c: char)
    ensures
        escape_char(c).len() >= 1,
        escape_char(c)[0] != '"',
        escape_char(c).len() == 1 <==> escape_char(c)[0] != '\\',
{
    reveal_strlit("0123456789abcdef");
}

/// The escape of one character is told apart from that of any other by its text alone.
proof fn lemma_escape_char_prefix(x: char, y: char, s1: Seq<char>, s2: Seq<char>)
    requires
        escape_char(x) + s1 == escape_char(y) + s2,
    ensures
        x == y,
        s1 == s2,
{
    reveal_strlit("0123456789abcdef");
    let t = escape_char(x) + s1;
    let ex = escape_char(x);
    let ey = escape_char(y);
    lemma_escape_char_shape(x);
    lemma_escape_char_shape(y);
    assert(forall|i: int| 0 <= i < ex.len() ==> t[i] == #[trigger] ex[i]);
    assert(forall|i: int| 0 <= i < ey.len() ==> t[i] == #[trigger] ey[i]);
    assert(ex.len() == ey.len());
    assert(ex =~= ey);
    assert(x == y);
    assert(s1 =~= t.subrange(ex.len() as int, t.len() as int));
    assert(s2 =~= t.subrange(ey.len() as int, t.len() as int));
}

proof fn lemma_escape_prefix(a: Seq<char>, b: Seq<char>, ra: Seq<char>, rb: Seq<char>)
    requires
        escape(a) + (seq!['"'] + ra) == escape(b) + (seq!['"'] + rb),
    ensures
        a == b,
        ra == rb,
    decreases a.len(),
{
    let q = seq!['"'];
    if a.len() == 0 {
        if b.len() > 0 {
            lemma_escape_front(b);
            lemma_escape_char_shape(b[0]);
            assert((escape(b) + (q + rb))[0] == escape_char(b[0])[0]);
            assert((escape(a) + (q + ra))[0] == '"');
        }
        assert(a =~= b);
        assert(ra =~= (escape(a) + (q + ra)).subrange(1, (escape(a) + (q + ra)).len() as int));
        assert(rb =~= (escape(b) + (q + rb)).subrange(1, (escape(b) + (q + rb)).len() as int));
    } else if b.len() == 0 {
        lemma_escape_front(a);
        lemma_escape_char_shape(a[0]);
        assert((escape(a) + (q + ra))[0] == escape_char(a[0])[0]);
        assert((escape(b) + (q + rb))[0] == '"');
    } else {
        lemma_escape_front(a);
        lemma_escape_front(b);
        let ta = escape(a.drop_first()) + (q + ra);
        let tb = escape(b.drop_first()) + (q + rb);
        assert(escape(a) + (q + ra) =~= escape_char(a[0]) + ta);
        assert(escape(b) + (q + rb) =~= escape_char(b[0]) + tb);
        lemma_escape_char_prefix(a[0], b[0], ta, tb);
        lemma_escape_prefix(a.drop_first(), b.drop_first(), ra, rb);
        assert(a =~= seq![a[0]] + a.drop_first());
        assert(b =~= seq![b[0]] + b.drop_first());
    }
}

/// A JSON string literal ends where its text says: what it holds and what follows it
/// are both read back from the concatenation.
proof fn lemma_json_str_prefix(a: Seq<char>, b: Seq<char>, ra: Seq<char>, rb: Seq<char>)
    requires
        json_str(a) + ra == json_str(b) + rb,
    ensures
        a == b,
        ra == rb,
{
    let q = seq!['"'];
    let t = json_str(a) + ra;
    assert(t =~= q + (escape(a) + (q + ra)));
    assert(json_str(b) + rb =~= q + (escape(b) + (q + rb)));
    assert(escape(a) + (q + ra) =~= t.subrange(1, t.len() as int));
    assert(escape(b) + (q + rb) =~= t.subrange(1, t.len() as int));
    lemma_escape_prefix(a, b, ra, rb);
}

proof fn lemma_strip(p: Seq<char>, x: Seq<char>, y: Seq<char>)
    requires
        p + x == p + y,
    ensures
        x == y,
{
    assert(x =~= (p + x).subrange(p.len() as int, (p + x).len() as int));
    assert(y =~= (p + y).subrange(p.len() as int, (p + y).len() as int));
}

proof fn lemma_key_value_prefix(a: KeyValue, b: KeyValue, ra: Seq<char>, rb: Seq<char>)
    requires
        json_key_value(a) + ra == json_key_value(b) + rb,
    ensures
        a@ == b@,
        ra == rb,
{
    let l1 = "{\"key\":"@;
    let l2 = ",\"value\":"@;
    let l3 = "}"@;
    assert(json_key_value(a) + ra =~= l1 + (json_str(a.key@) + (l2 + (json_str(a.value@) + (l3 + ra)))));
    assert(json_key_value(b) + rb =~= l1 + (json_str(b.key@) + (l2 + (json_str(b.value@) + (l3 + rb)))));
    lemma_strip(l1, json_str(a.key@) + (l2 + (json_str(a.value@) + (l3 + ra))), json_str(b.key@) + (l2 + (json_str(b.value@) + (l3 + rb))));
    lemma_json_str_prefix(a.key@, b.key@, l2 + (json_str(a.value@) + (l3 + ra)), l2 + (json_str(b.value@) + (l3 + rb)));
    lemma_strip(l2, json_str(a.value@) + (l3 + ra), json_str(b.value@) + (l3 + rb));
    lemma_json_str_prefix(a.value@, b.value@, l3 + ra, l3 + rb);
    lemma_strip(l3, ra, rb);
}

proof fn lemma_items_front(s: Seq<KeyValue>)
    requires
        s.len() >= 2,
    ensures
        json_key_value_items(s) == json_key_value(s[0]) + (","@ + json_key_value_items(s.drop_first())),
    decreases s.len(),
{
    if s.len() == 2 {
        assert(s.drop_last().len() == 1);
        assert(s.drop_first().len() == 1);
        assert(s.drop_last()[0] == s[0]);
        assert(s.drop_first()[0] == s.last());
        assert(json_key_value_items(s.drop_last()) == json_key_value(s[0]));
        assert(json_key_value_items(s.drop_first()) == json_key_value(s.last()));
        assert(json_key_value_items(s) =~= json_key_value(s[0]) + (","@ + json_key_value_items(s.drop_first())));
    } else {
        lemma_items_front(s.drop_last());
        let k = ","@;
        assert(s.drop_last().drop_first() =~= s.drop_first().drop_last());
        assert(s.drop_last()[0] == s[0]);
        assert(s.drop_first().last() == s.last());
        assert(json_key_value_items(s) == json_key_value_items(s.drop_last()) + k + json_key_value(s.last()));
        assert(json_key_value_items(s.drop_first()) == json_key_value_items(s.drop_first().drop_last()) + k
            + json_key_value(s.last()));
        assert(json_key_value_items(s) =~= json_key_value(s[0]) + (","@ + json_key_value_items(s.drop_first())));
    }
}

proof fn lemma_key_value_starts(kv: KeyValue, r: Seq<char>)
    ensures
        (json_key_value(kv) + r)[0] == '{',
        json_key_value(kv).len() > 0,
{
    reveal_strlit("{\"key\":");
}

/// What follows the first object of a non-empty array's items, up to the end of the text.
spec fn items_tail(s: Seq<KeyValue>, r: Seq<char>) -> Seq<char> {
    if s.len() == 1 {
        "]"@ + r
    } else {
        ","@ + (json_key_value_items(s.drop_first()) + ("]"@ + r))
    }
}

proof fn lemma_items_split(s: Seq<KeyValue>, r: Seq<char>)
    requires
        s.len() >= 1,
    ensures
        json_key_value_items(s) + ("]"@ + r) == json_key_value(s[0]) + items_tail(s, r),
        items_tail(s, r)[0] == (if s.len() == 1 { ']' } else { ',' }),
        (json_key_value_items(s) + ("]"@ + r))[0] == '{',
{
    reveal_strlit("]");
    reveal_strlit(",");
    if s.len() == 1 {
        assert(json_key_value_items(s) + ("]"@ + r) =~= json_key_value(s[0]) + items_tail(s, r));
    } else {
        lemma_items_front(s);
        assert(json_key_value_items(s) + ("]"@ + r) =~= json_key_value(s[0]) + items_tail(s, r));
    }
    lemma_key_value_starts(s[0], items_tail(s, r));
}

proof fn lemma_items_empty(s: Seq<KeyValue>, r: Seq<char>)
    requires
        s.len() == 0,
    ensures
        json_key_value_items(s) + ("]"@ + r) == "]"@ + r,
        ("]"@ + r)[0] == ']',
{
    reveal_strlit("]");
    assert(json_key_value_items(s) + ("]"@ + r) =~= "]"@ + r);
}

proof fn lemma_items_prefix(a: Seq<KeyValue>, b: Seq<KeyValue>, ra: Seq<char>, rb: Seq<char>)
    requires
        json_key_value_items(a) + ("]"@ + ra) == json_key_value_items(b) + ("]"@ + rb),
    ensures
        pairs_of(a) == pairs_of(b),
        ra == rb,
    decreases a.len(),
{
    if a.len() == 0 {
        lemma_items_empty(a, ra);
        if b.len() == 0 {
            lemma_items_empty(b, rb);
            lemma_strip("]"@, ra, rb);
            assert(pairs_of(a) =~= pairs_of(b));
        } else {
            lemma_items_split(b, rb);
        }
    } else if b.len() == 0 {
        lemma_items_empty(b, rb);
        lemma_items_split(a, ra);
    } else {
        lemma_items_split(a, ra);
        lemma_items_split(b, rb);
        lemma_key_value_prefix(a[0], b[0], items_tail(a, ra), items_tail(b, rb));
        if a.len() == 1 {
            lemma_strip("]"@, ra, rb);
            assert(pairs_of(a) =~= pairs_of(b));
        } else {
            lemma_strip(
                ","@,
                json_key_value_items(a.drop_first()) + ("]"@ + ra),
                json_key_value_items(b.drop_first()) + ("]"@ + rb),
            );
            lemma_items_prefix(a.drop_first(), b.drop_first(), ra, rb);
            assert(pairs_of(a) =~= seq![a[0]@] + pairs_of(a.drop_first()));
            assert(pairs_of(b) =~= seq![b[0]@] + pairs_of(b.drop_first()));
        }
    }
}

proof fn lemma_key_values_prefix(a: Seq<KeyValue>, b: Seq<KeyValue>, ra: Seq<char>, rb: Seq<char>)
    requires
        json_key_values(a) + ra == json_key_values(b) + rb,
    ensures
        pairs_of(a) == pairs_of(b),
        ra == rb,
{
    let o = "["@;
    let c = "]"@;
    assert(json_key_values(a) + ra =~= o + (json_key_value_items(a) + (c + ra)));
    assert(json_key_values(b) + rb =~= o + (json_key_value_items(b) + (c + rb)));
    lemma_strip(o, json_key_value_items(a) + (c + ra), json_key_value_items(b) + (c + rb));
    lemma_items_prefix(a, b, ra, rb);
}

/// Nothing is lost in the wire JSON of a payment: two payments with the same wire JSON
/// hold the same value in every field, and the same key-value pairs in the same order.
pub proof fn lemma_payment_json_injective(a: TransactionRequest, b: TransactionRequest)
    requires
        payment_json_of(a) == payment_json_of(b),
    ensures
        a.amount@ == b.amount@,
        a.currency@ == b.currency@,
        a.description_text@ == b.description_text@,
        a.request_date@ == b.request_date@,
        pairs_of(a.debit_party@) == pairs_of(b.debit_party@),
        pairs_of(a.credit_party@) == pairs_of(b.credit_party@),
        pairs_of(a.metadata@) == pairs_of(b.metadata@),
        a.requesting_organisation_transaction_reference@ == b.requesting_organisation_transaction_reference@,
        a.original_transaction_reference@ == b.original_transaction_reference@,
{
    let a18 = "}"@;
    let a17 = json_str(a.original_transaction_reference@) + a18;
    let a16 = ",\"originalTransactionReference\":"@ + a17;
    let a15 = json_str(a.requesting_organisation_transaction_reference@) + a16;
    let a14 = ",\"requestingOrganisationTransactionReference\":"@ + a15;
    let a13 = json_key_values(a.metadata@) + a14;
    let a12 = ",\"metadata\":"@ + a13;
    let a11 = json_key_values(a.credit_party@) + a12;
    let a10 = ",\"creditParty\":"@ + a11;
    let a9 = json_key_values(a.debit_party@) + a10;
    let a8 = ",\"debitParty\":"@ + a9;
    let a7 = json_str(a.request_date@) + a8;
    let a6 = ",\"requestDate\":"@ + a7;
    let a5 = json_str(a.description_text@) + a6;
    let a4 = ",\"descriptionText\":"@ + a5;
    let a3 = json_str(a.currency@) + a4;
    let a2 = ",\"currency\":"@ + a3;
    let a1 = json_str(a.amount@) + a2;
    let a0 = "{\"amount\":"@ + a1;
    let b18 = "}"@;
    let b17 = json_str(b.original_transaction_reference@) + b18;
    let b16 = ",\"originalTransactionReference\":"@ + b17;
    let b15 = json_str(b.requesting_organisation_transaction_reference@) + b16;
    let b14 = ",\"requestingOrganisationTransactionReference\":"@ + b15;
    let b13 = json_key_values(b.metadata@) + b14;
    let b12 = ",\"metadata\":"@ + b13;
    let b11 = json_key_values(b.credit_party@) + b12;
    let b10 = ",\"creditParty\":"@ + b11;
    let b9 = json_key_values(b.debit_party@) + b10;
    let b8 = ",\"debitParty\":"@ + b9;
    let b7 = json_str(b.request_date@) + b8;
    let b6 = ",\"requestDate\":"@ + b7;
    let b5 = json_str(b.description_text@) + b6;
    let b4 = ",\"descriptionText\":"@ + b5;
    let b3 = json_str(b.currency@) + b4;
    let b2 = ",\"currency\":"@ + b3;
    let b1 = json_str(b.amount@) + b2;
    let b0 = "{\"amount\":"@ + b1;
    assert(payment_json_of(a) == a0);
    assert(payment_json_of(b) == b0);
    lemma_strip("{\"amount\":"@, a1, b1);
    lemma_json_str_prefix(a.amount@, b.amount@, a2, b2);
    lemma_strip(",\"currency\":"@, a3, b3);
    lemma_json_str_prefix(a.currency@, b.currency@, a4, b4);
    lemma_strip(",\"descriptionText\":"@, a5, b5);
    lemma_json_str_prefix(a.description_text@, b.description_text@, a6, b6);
    lemma_strip(",\"requestDate\":"@, a7, b7);
    lemma_json_str_prefix(a.request_date@, b.request_date@, a8, b8);
    lemma_strip(",\"debitParty\":"@, a9, b9);
    lemma_key_values_prefix(a.debit_party@, b.debit_party@, a10, b10);
    lemma_strip(",\"creditParty\":"@, a11, b11);
    lemma_key_values_prefix(a.credit_party@, b.credit_party@, a12, b12);
    lemma_strip(",\"metadata\":"@, a13, b13);
    lemma_key_values_prefix(a.metadata@, b.metadata@, a14, b14);
    lemma_strip(",\"requestingOrganisationTransactionReference\":"@, a15, b15);
    lemma_json_str_prefix(a.requesting_organisation_transaction_reference@, b.requesting_organisation_transaction_reference@, a16, b16);
    lemma_strip(",\"originalTransactionReference\":"@, a17, b17);
    lemma_json_str_prefix(a.original_transaction_reference@, b.original_transaction_reference@, a18, b18);
}

} // verus!
