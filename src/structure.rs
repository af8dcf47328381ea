//! A structural, field-name-keyed form of queries: what a query is when it is
//! written as an object of named fields, the form in which it goes on the
//! wire. Absent optional fields are left out of the object.

use vstd::prelude::*;
use crate::query::{
    names, opt_names, FieldSelection, InputSelection, OutputSelection, Query, ReceiptSelection,
};

verus! {

/// A structural value.
#[derive(Debug)]
pub enum Value {
    Bool(bool),
    Number(u64),
    Text(String),
    List(Vec<Value>),
    Object(Vec<Entry>),
}

/// A named field of an object.
#[derive(Debug)]
pub struct Entry {
    pub key: String,
    pub value: Value,
}

/// The value of the first field of an object with the given name.
pub open spec fn lookup(es: Seq<Entry>, key: Seq<char>) -> Option<Value>
    decreases es.len(),
{
    if es.len() == 0 {
        None
    } else if es[0].key@ == key {
        Some(es[0].value)
    } else {
        lookup(es.drop_first(), key)
    }
}

proof fn lemma_lookup_push(es: Seq<Entry>, e: Entry, key: Seq<char>)
    ensures
        lookup(es.push(e), key) == (match lookup(es, key) {
            Some(v) => Some(v),
            None => if e.key@ == key {
                Some(e.value)
            } else {
                None
            },
        }),
    decreases es.len(),
{
    let p = es.push(e);
    assert(lookup(p, key) == (if p[0].key@ == key {
        Some(p[0].value)
    } else {
        lookup(p.drop_first(), key)
    }));
    if es.len() > 0 {
        assert(lookup(es, key) == (if es[0].key@ == key {
            Some(es[0].value)
        } else {
            lookup(es.drop_first(), key)
        }));
        assert(es.push(e)[0] == es[0]);
        assert(es.push(e).drop_first() =~= es.drop_first().push(e));
        lemma_lookup_push(es.drop_first(), e, key);
    } else {
        assert(es.push(e)[0] == e);
        assert(es.push(e).drop_first() =~= Seq::<Entry>::empty());
    }
}

/// The optional contents of a list, as a sequence.
pub open spec fn opt_seq<T>(o: Option<Vec<T>>) -> Option<Seq<T>> {
    match o {
        Some(v) => Some(v@),
        None => None,
    }
}

fn find(es: &Vec<Entry>, key: &str) -> (r: Option<usize>)
    ensures
        r matches Some(i) ==> i < es@.len() && lookup(es@, key@) == Some(es@[i as int].value),
        r is None ==> lookup(es@, key@) is None,
{
    let wanted = String::from_str(key);
    let mut i: usize = 0;
    assert(es@.subrange(0, es@.len() as int) =~= es@);
    while i < es.len()
        invariant
            i <= es@.len(),
            wanted@ == key@,
            lookup(es@, key@) == lookup(es@.subrange(i as int, es@.len() as int), key@),
        decreases es@.len() - i,
    {
        let ghost rest = es@.subrange(i as int, es@.len() as int);
        assert(rest.drop_first() =~= es@.subrange(i + 1, es@.len() as int));
        assert(rest[0] == es@[i as int]);
        if es[i].key == wanted {
            return Some(i);
        }
        i = i + 1;
    }
    assert(es@.subrange(i as int, es@.len() as int) =~= Seq::<Entry>::empty());
    None
}

fn push_field(es: &mut Vec<Entry>, key: &str, value: Option<Value>)
    ensures
        forall|k: Seq<char>|
            #[trigger] lookup(final(es)@, k) == (match lookup(old(es)@, k) {
                Some(v) => Some(v),
                None => if key@ == k {
                    value
                } else {
                    None
                },
            }),
{
    if let Some(v) = value {
        let e = Entry { key: String::from_str(key), value: v };
        let ghost before = es@;
        es.push(e);
        proof {
            assert forall|k: Seq<char>| #[trigger] lookup(es@, k) == (match lookup(before, k) {
                Some(v) => Some(v),
                None => if key@ == k {
                    value
                } else {
                    None
                },
            }) by {
                lemma_lookup_push(before, e, k);
            }
        }
    }
}

/// Whether a value is the text `s`.
pub open spec fn text_is(x: Value, s: String) -> bool {
    match x {
        Value::Text(t) => t@ == s@,
        _ => false,
    }
}

pub open spec fn is_text(x: Value) -> bool {
    x is Text
}

pub open spec fn is_byte(x: Value) -> bool {
    match x {
        Value::Number(n) => n <= 255,
        _ => false,
    }
}

pub open spec fn is_number(x: Value) -> bool {
    x is Number
}

pub open spec fn all_text(items: Seq<Value>) -> bool {
    forall|i: int| 0 <= i < items.len() ==> is_text(#[trigger] items[i])
}

pub open spec fn all_bytes(items: Seq<Value>) -> bool {
    forall|i: int| 0 <= i < items.len() ==> is_byte(#[trigger] items[i])
}

pub open spec fn all_numbers(items: Seq<Value>) -> bool {
    forall|i: int| 0 <= i < items.len() ==> is_number(#[trigger] items[i])
}

// Field kinds: how a field relates to the value found under its name, which
// values a field of the kind can be read from, and when two fields agree.

pub open spec fn rel_u64(x: Option<Value>, f: u64) -> bool {
    x == Some(Value::Number(f))
}

pub open spec fn shape_u64(x: Option<Value>) -> bool {
    x matches Some(Value::Number(_))
}

pub open spec fn same_u64(a: u64, b: u64) -> bool {
    a == b
}

pub open spec fn rel_ou64(x: Option<Value>, f: Option<u64>) -> bool {
    match f {
        Some(n) => x == Some(Value::Number(n)),
        None => x is None,
    }
}

pub open spec fn shape_ou64(x: Option<Value>) -> bool {
    x is None || x matches Some(Value::Number(_))
}

pub open spec fn same_ou64(a: Option<u64>, b: Option<u64>) -> bool {
    a == b
}

pub open spec fn rel_ousize(x: Option<Value>, f: Option<usize>) -> bool {
    match f {
        Some(n) => x == Some(Value::Number(n as u64)),
        None => x is None,
    }
}

pub open spec fn shape_ousize(x: Option<Value>) -> bool {
    match x {
        None => true,
        Some(Value::Number(n)) => n <= usize::MAX,
        _ => false,
    }
}

pub open spec fn same_ousize(a: Option<usize>, b: Option<usize>) -> bool {
    a == b
}

pub open spec fn rel_obool(x: Option<Value>, f: Option<bool>) -> bool {
    match f {
        Some(b) => x == Some(Value::Bool(b)),
        None => x is None,
    }
}

pub open spec fn shape_obool(x: Option<Value>) -> bool {
    x is None || x matches Some(Value::Bool(_))
}

pub open spec fn same_obool(a: Option<bool>, b: Option<bool>) -> bool {
    a == b
}

pub open spec fn texts(items: Seq<Value>, v: Seq<String>) -> bool {
    &&& items.len() == v.len()
    &&& forall|i: int| 0 <= i < items.len() ==> text_is(#[trigger] items[i], v[i])
}

pub open spec fn rel_ostrs(x: Option<Value>, f: Option<Vec<String>>) -> bool {
    match f {
        Some(v) => match x {
            Some(Value::List(items)) => texts(items@, v@),
            _ => false,
        },
        None => x is None,
    }
}

pub open spec fn shape_ostrs(x: Option<Value>) -> bool {
    match x {
        None => true,
        Some(Value::List(items)) => all_text(items@),
        _ => false,
    }
}

pub open spec fn same_ostrs(a: Option<Vec<String>>, b: Option<Vec<String>>) -> bool {
    opt_names(a) == opt_names(b)
}

pub open spec fn bytes(items: Seq<Value>, v: Seq<u8>) -> bool {
    &&& items.len() == v.len()
    &&& forall|i: int| 0 <= i < items.len() ==> #[trigger] items[i] == Value::Number(v[i] as u64)
}

pub open spec fn rel_ou8s(x: Option<Value>, f: Option<Vec<u8>>) -> bool {
    match f {
        Some(v) => match x {
            Some(Value::List(items)) => bytes(items@, v@),
            _ => false,
        },
        None => x is None,
    }
}

pub open spec fn shape_ou8s(x: Option<Value>) -> bool {
    match x {
        None => true,
        Some(Value::List(items)) => all_bytes(items@),
        _ => false,
    }
}

pub open spec fn same_ou8s(a: Option<Vec<u8>>, b: Option<Vec<u8>>) -> bool {
    opt_seq(a) == opt_seq(b)
}

pub open spec fn numbers(items: Seq<Value>, v: Seq<u64>) -> bool {
    &&& items.len() == v.len()
    &&& forall|i: int| 0 <= i < items.len() ==> #[trigger] items[i] == Value::Number(v[i])
}

pub open spec fn rel_ou64s(x: Option<Value>, f: Option<Vec<u64>>) -> bool {
    match f {
        Some(v) => match x {
            Some(Value::List(items)) => numbers(items@, v@),
            _ => false,
        },
        None => x is None,
    }
}

pub open spec fn shape_ou64s(x: Option<Value>) -> bool {
    match x {
        None => true,
        Some(Value::List(items)) => all_numbers(items@),
        _ => false,
    }
}

pub open spec fn same_ou64s(a: Option<Vec<u64>>, b: Option<Vec<u64>>) -> bool {
    opt_seq(a) == opt_seq(b)
}

fn enc_u64(f: u64) -> (r: Option<Value>)
    ensures
        rel_u64(r, f),
{
    Some(Value::Number(f))
}

fn dec_u64(es: &Vec<Entry>, key: &str) -> (r: Result<u64, ()>)
    ensures
        r is Ok <==> shape_u64(lookup(es@, key@)),
        r matches Ok(f) ==> rel_u64(lookup(es@, key@), f),
{
    match find(es, key) {
        Some(i) => match &es[i].value {
            Value::Number(n) => Ok(*n),
            _ => Err(()),
        },
        None => Err(()),
    }
}

fn enc_ou64(f: &Option<u64>) -> (r: Option<Value>)
    ensures
        rel_ou64(r, *f),
{
    match f {
        Some(n) => Some(Value::Number(*n)),
        None => None,
    }
}

fn dec_ou64(es: &Vec<Entry>, key: &str) -> (r: Result<Option<u64>, ()>)
    ensures
        r is Ok <==> shape_ou64(lookup(es@, key@)),
        r matches Ok(f) ==> rel_ou64(lookup(es@, key@), f),
{
    match find(es, key) {
        Some(i) => match &es[i].value {
            Value::Number(n) => Ok(Some(*n)),
            _ => Err(()),
        },
        None => Ok(None),
    }
}

fn enc_ousize(f: &Option<usize>) -> (r: Option<Value>)
    ensures
        rel_ousize(r, *f),
{
    match f {
        Some(n) => Some(Value::Number(*n as u64)),
        None => None,
    }
}

fn dec_ousize(es: &Vec<Entry>, key: &str) -> (r: Result<Option<usize>, ()>)
    ensures
        r is Ok <==> shape_ousize(lookup(es@, key@)),
        r matches Ok(f) ==> rel_ousize(lookup(es@, key@), f),
{
    match find(es, key) {
        Some(i) => match &es[i].value {
            Value::Number(n) => if *n <= usize::MAX as u64 {
                Ok(Some(*n as usize))
            } else {
                Err(())
            },
            _ => Err(()),
        },
        None => Ok(None),
    }
}

fn enc_obool(f: &Option<bool>) -> (r: Option<Value>)
    ensures
        rel_obool(r, *f),
{
    match f {
        Some(b) => Some(Value::Bool(*b)),
        None => None,
    }
}

fn dec_obool(es: &Vec<Entry>, key: &str) -> (r: Result<Option<bool>, ()>)
    ensures
        r is Ok <==> shape_obool(lookup(es@, key@)),
        r matches Ok(f) ==> rel_obool(lookup(es@, key@), f),
{
    match find(es, key) {
        Some(i) => match &es[i].value {
            Value::Bool(b) => Ok(Some(*b)),
            _ => Err(()),
        },
        None => Ok(None),
    }
}

fn enc_ostrs(f: &Option<Vec<String>>) -> (r: Option<Value>)
    ensures
        rel_ostrs(r, *f),
{
    match f {
        Some(v) => {
            let mut items: Vec<Value> = Vec::new();
            let mut i: usize = 0;
            while i < v.len()
                invariant
                    i <= v@.len(),
                    texts(items@, v@.subrange(0, i as int)),
                decreases v@.len() - i,
            {
                items.push(Value::Text(v[i].clone()));
                i = i + 1;
            }
            assert(v@.subrange(0, v@.len() as int) =~= v@);
            Some(Value::List(items))
        },
        None => None,
    }
}

fn dec_ostrs(es: &Vec<Entry>, key: &str) -> (r: Result<Option<Vec<String>>, ()>)
    ensures
        r is Ok <==> shape_ostrs(lookup(es@, key@)),
        r matches Ok(f) ==> rel_ostrs(lookup(es@, key@), f),
{
    match find(es, key) {
        Some(k) => match &es[k].value {
            Value::List(items) => {
                let mut v: Vec<String> = Vec::new();
                let mut i: usize = 0;
                while i < items.len()
                    invariant
                        i <= items@.len(),
                        lookup(es@, key@) == Some(Value::List(*items)),
                        texts(items@.subrange(0, i as int), v@),
                        forall|j: int| 0 <= j < i ==> is_text(#[trigger] items@[j]),
                    decreases items@.len() - i,
                {
                    match &items[i] {
                        Value::Text(t) => v.push(t.clone()),
                        _ => {
                            assert(!is_text((*items)@[i as int]));
                            assert(!all_text((*items)@));
                            return Err(());
                        },
                    }
                    i = i + 1;
                }
                assert(items@.subrange(0, items@.len() as int) =~= items@);
                Ok(Some(v))
            },
            _ => Err(()),
        },
        None => Ok(None),
    }
}

fn enc_ou8s(f: &Option<Vec<u8>>) -> (r: Option<Value>)
    ensures
        rel_ou8s(r, *f),
{
    match f {
        Some(v) => {
            let mut items: Vec<Value> = Vec::new();
            let mut i: usize = 0;
            while i < v.len()
                invariant
                    i <= v@.len(),
                    bytes(items@, v@.subrange(0, i as int)),
                decreases v@.len() - i,
            {
                items.push(Value::Number(v[i] as u64));
                i = i + 1;
            }
            assert(v@.subrange(0, v@.len() as int) =~= v@);
            Some(Value::List(items))
        },
        None => None,
    }
}

fn dec_ou8s(es: &Vec<Entry>, key: &str) -> (r: Result<Option<Vec<u8>>, ()>)
    ensures
        r is Ok <==> shape_ou8s(lookup(es@, key@)),
        r matches Ok(f) ==> rel_ou8s(lookup(es@, key@), f),
{
    match find(es, key) {
        Some(k) => match &es[k].value {
            Value::List(items) => {
                let mut v: Vec<u8> = Vec::new();
                let mut i: usize = 0;
                while i < items.len()
                    invariant
                        i <= items@.len(),
                        lookup(es@, key@) == Some(Value::List(*items)),
                        bytes(items@.subrange(0, i as int), v@),
                        forall|j: int| 0 <= j < i ==> is_byte(#[trigger] items@[j]),
                    decreases items@.len() - i,
                {
                    match &items[i] {
                        Value::Number(n) => {
                            if *n > 255 {
                                assert(!is_byte((*items)@[i as int]));
                            assert(!all_bytes((*items)@));
                                return Err(());
                            }
                            v.push(*n as u8);
                        },
                        _ => {
                            assert(!is_byte((*items)@[i as int]));
                            assert(!all_bytes((*items)@));
                            return Err(());
                        },
                    }
                    i = i + 1;
                }
                assert(items@.subrange(0, items@.len() as int) =~= items@);
                Ok(Some(v))
            },
            _ => Err(()),
        },
        None => Ok(None),
    }
}

fn enc_ou64s(f: &Option<Vec<u64>>) -> (r: Option<Value>)
    ensures
        rel_ou64s(r, *f),
{
    match f {
        Some(v) => {
            let mut items: Vec<Value> = Vec::new();
            let mut i: usize = 0;
            while i < v.len()
                invariant
                    i <= v@.len(),
                    numbers(items@, v@.subrange(0, i as int)),
                decreases v@.len() - i,
            {
                items.push(Value::Number(v[i]));
                i = i + 1;
            }
            assert(v@.subrange(0, v@.len() as int) =~= v@);
            Some(Value::List(items))
        },
        None => None,
    }
}

fn dec_ou64s(es: &Vec<Entry>, key: &str) -> (r: Result<Option<Vec<u64>>, ()>)
    ensures
        r is Ok <==> shape_ou64s(lookup(es@, key@)),
        r matches Ok(f) ==> rel_ou64s(lookup(es@, key@), f),
{
    match find(es, key) {
        Some(k) => match &es[k].value {
            Value::List(items) => {
                let mut v: Vec<u64> = Vec::new();
                let mut i: usize = 0;
                while i < items.len()
                    invariant
                        i <= items@.len(),
                        lookup(es@, key@) == Some(Value::List(*items)),
                        numbers(items@.subrange(0, i as int), v@),
                        forall|j: int| 0 <= j < i ==> is_number(#[trigger] items@[j]),
                    decreases items@.len() - i,
                {
                    match &items[i] {
                        Value::Number(n) => v.push(*n),
                        _ => {
                            assert(!is_number((*items)@[i as int]));
                            assert(!all_numbers((*items)@));
                            return Err(());
                        },
                    }
                    i = i + 1;
                }
                assert(items@.subrange(0, items@.len() as int) =~= items@);
                Ok(Some(v))
            },
            _ => Err(()),
        },
        None => Ok(None),
    }
}


proof fn lemma_unique_ostrs(x: Option<Value>, a: Option<Vec<String>>, b: Option<Vec<String>>)
    requires
        rel_ostrs(x, a),
        rel_ostrs(x, b),
    ensures
        same_ostrs(a, b),
{
    if let (Some(a), Some(b)) = (a, b) {
        if let Some(Value::List(items)) = x {
            assert forall|i: int| 0 <= i < a@.len() implies names(a@)[i] == names(b@)[i] by {
                assert(text_is(items@[i], a@[i]));
                assert(text_is(items@[i], b@[i]));
            }
            assert(names(a@) =~= names(b@));
        }
    }
}

proof fn lemma_rel_shape_ostrs(x: Option<Value>, f: Option<Vec<String>>)
    requires
        rel_ostrs(x, f),
    ensures
        shape_ostrs(x),
{
    if let (Some(v), Some(Value::List(items))) = (f, x) {
        assert forall|i: int| 0 <= i < items@.len() implies is_text(#[trigger] items@[i]) by {
            assert(text_is(items@[i], v@[i]));
        }
    }
}

proof fn lemma_rel_shape_ou8s(x: Option<Value>, f: Option<Vec<u8>>)
    requires
        rel_ou8s(x, f),
    ensures
        shape_ou8s(x),
{
    if let (Some(v), Some(Value::List(items))) = (f, x) {
        assert forall|i: int| 0 <= i < items@.len() implies is_byte(#[trigger] items@[i]) by {
            assert(items@[i] == Value::Number(v@[i] as u64));
        }
    }
}

proof fn lemma_rel_shape_ou64s(x: Option<Value>, f: Option<Vec<u64>>)
    requires
        rel_ou64s(x, f),
    ensures
        shape_ou64s(x),
{
    if let (Some(v), Some(Value::List(items))) = (f, x) {
        assert forall|i: int| 0 <= i < items@.len() implies is_number(#[trigger] items@[i]) by {
            assert(items@[i] == Value::Number(v@[i]));
        }
    }
}

proof fn lemma_unique_ou8s(x: Option<Value>, a: Option<Vec<u8>>, b: Option<Vec<u8>>)
    requires
        rel_ou8s(x, a),
        rel_ou8s(x, b),
    ensures
        same_ou8s(a, b),
{
    if let (Some(a), Some(b)) = (a, b) {
        if let Some(Value::List(items)) = x {
            assert forall|i: int| 0 <= i < a@.len() implies a@[i] == b@[i] by {
                assert(items@[i] == Value::Number(a@[i] as u64));
                assert(items@[i] == Value::Number(b@[i] as u64));
            }
            assert(a@ =~= b@);
        }
    }
}

proof fn lemma_unique_ou64s(x: Option<Value>, a: Option<Vec<u64>>, b: Option<Vec<u64>>)
    requires
        rel_ou64s(x, a),
        rel_ou64s(x, b),
    ensures
        same_ou64s(a, b),
{
    if let (Some(a), Some(b)) = (a, b) {
        if let Some(Value::List(items)) = x {
            assert forall|i: int| 0 <= i < a@.len() implies a@[i] == b@[i] by {
                assert(items@[i] == Value::Number(a@[i]));
            }
            assert(a@ =~= b@);
        }
    }
}

/// Whether an object's fields hold those of `s`.
pub open spec fn rel_receipt_selection(es: Seq<Entry>, s: ReceiptSelection) -> bool {
    &&& rel_ostrs(lookup(es, "root_contract_id"@), s.root_contract_id)
    &&& rel_ostrs(lookup(es, "to_address"@), s.to_address)
    &&& rel_ostrs(lookup(es, "asset_id"@), s.asset_id)
    &&& rel_ou8s(lookup(es, "receipt_type"@), s.receipt_type)
    &&& rel_ostrs(lookup(es, "sender"@), s.sender)
    &&& rel_ostrs(lookup(es, "recipient"@), s.recipient)
    &&& rel_ostrs(lookup(es, "contract_id"@), s.contract_id)
    &&& rel_ou64s(lookup(es, "ra"@), s.ra)
    &&& rel_ou64s(lookup(es, "rb"@), s.rb)
    &&& rel_ou64s(lookup(es, "rc"@), s.rc)
    &&& rel_ou64s(lookup(es, "rd"@), s.rd)
}

/// Whether an object can be read as a `ReceiptSelection`.
pub open spec fn shape_receipt_selection(es: Seq<Entry>) -> bool {
    &&& shape_ostrs(lookup(es, "root_contract_id"@))
    &&& shape_ostrs(lookup(es, "to_address"@))
    &&& shape_ostrs(lookup(es, "asset_id"@))
    &&& shape_ou8s(lookup(es, "receipt_type"@))
    &&& shape_ostrs(lookup(es, "sender"@))
    &&& shape_ostrs(lookup(es, "recipient"@))
    &&& shape_ostrs(lookup(es, "contract_id"@))
    &&& shape_ou64s(lookup(es, "ra"@))
    &&& shape_ou64s(lookup(es, "rb"@))
    &&& shape_ou64s(lookup(es, "rc"@))
    &&& shape_ou64s(lookup(es, "rd"@))
}

/// Whether two values of `ReceiptSelection` have the same contents.
pub open spec fn same_receipt_selection(a: ReceiptSelection, b: ReceiptSelection) -> bool {
    &&& same_ostrs(a.root_contract_id, b.root_contract_id)
    &&& same_ostrs(a.to_address, b.to_address)
    &&& same_ostrs(a.asset_id, b.asset_id)
    &&& same_ou8s(a.receipt_type, b.receipt_type)
    &&& same_ostrs(a.sender, b.sender)
    &&& same_ostrs(a.recipient, b.recipient)
    &&& same_ostrs(a.contract_id, b.contract_id)
    &&& same_ou64s(a.ra, b.ra)
    &&& same_ou64s(a.rb, b.rb)
    &&& same_ou64s(a.rc, b.rc)
    &&& same_ou64s(a.rd, b.rd)
}

fn encode_receipt_selection(s: &ReceiptSelection) -> (r: Vec<Entry>)
    ensures
        rel_receipt_selection(r@, *s),
{
    proof {
        reveal_strlit("root_contract_id");
        assert("root_contract_id"@ =~= seq!['r', 'o', 'o', 't', '_', 'c', 'o', 'n', 't', 'r', 'a', 'c', 't', '_', 'i', 'd']);
        reveal_strlit("to_address");
        assert("to_address"@ =~= seq!['t', 'o', '_', 'a', 'd', 'd', 'r', 'e', 's', 's']);
        reveal_strlit("asset_id");
        assert("asset_id"@ =~= seq!['a', 's', 's', 'e', 't', '_', 'i', 'd']);
        reveal_strlit("receipt_type");
        assert("receipt_type"@ =~= seq!['r', 'e', 'c', 'e', 'i', 'p', 't', '_', 't', 'y', 'p', 'e']);
        reveal_strlit("sender");
        assert("sender"@ =~= seq!['s', 'e', 'n', 'd', 'e', 'r']);
        reveal_strlit("recipient");
        assert("recipient"@ =~= seq!['r', 'e', 'c', 'i', 'p', 'i', 'e', 'n', 't']);
        reveal_strlit("contract_id");
        assert("contract_id"@ =~= seq!['c', 'o', 'n', 't', 'r', 'a', 'c', 't', '_', 'i', 'd']);
        reveal_strlit("ra");
        assert("ra"@ =~= seq!['r', 'a']);
        reveal_strlit("rb");
        assert("rb"@ =~= seq!['r', 'b']);
        reveal_strlit("rc");
        assert("rc"@ =~= seq!['r', 'c']);
        reveal_strlit("rd");
        assert("rd"@ =~= seq!['r', 'd']);
    }
    let mut es: Vec<Entry> = Vec::new();
    push_field(&mut es, "root_contract_id", enc_ostrs(&s.root_contract_id));
    push_field(&mut es, "to_address", enc_ostrs(&s.to_address));
    push_field(&mut es, "asset_id", enc_ostrs(&s.asset_id));
    push_field(&mut es, "receipt_type", enc_ou8s(&s.receipt_type));
    push_field(&mut es, "sender", enc_ostrs(&s.sender));
    push_field(&mut es, "recipient", enc_ostrs(&s.recipient));
    push_field(&mut es, "contract_id", enc_ostrs(&s.contract_id));
    push_field(&mut es, "ra", enc_ou64s(&s.ra));
    push_field(&mut es, "rb", enc_ou64s(&s.rb));
    push_field(&mut es, "rc", enc_ou64s(&s.rc));
    push_field(&mut es, "rd", enc_ou64s(&s.rd));
    es
}

fn decode_receipt_selection(es: &Vec<Entry>) -> (r: Option<ReceiptSelection>)
    ensures
        r is Some <==> shape_receipt_selection(es@),
        r matches Some(s) ==> rel_receipt_selection(es@, s),
{
    let root_contract_id = match dec_ostrs(es, "root_contract_id") {
        Ok(v) => v,
        Err(_) => {
            return None;
        },
    };
    let to_address = match dec_ostrs(es, "to_address") {
        Ok(v) => v,
        Err(_) => {
            return None;
        },
    };
    let asset_id = match dec_ostrs(es, "asset_id") {
        Ok(v) => v,
        Err(_) => {
            return None;
        },
    };
    let receipt_type = match dec_ou8s(es, "receipt_type") {
        Ok(v) => v,
        Err(_) => {
            return None;
        },
    };
    let sender = match dec_ostrs(es, "sender") {
        Ok(v) => v,
        Err(_) => {
            return None;
        },
    };
    let recipient = match dec_ostrs(es, "recipient") {
        Ok(v) => v,
        Err(_) => {
            return None;
        },
    };
    let contract_id = match dec_ostrs(es, "contract_id") {
        Ok(v) => v,
        Err(_) => {
            return None;
        },
    };
    let ra = match dec_ou64s(es, "ra") {
        Ok(v) => v,
        Err(_) => {
            return None;
        },
    };
    let rb = match dec_ou64s(es, "rb") {
        Ok(v) => v,
        Err(_) => {
            return None;
        },
    };
    let rc = match dec_ou64s(es, "rc") {
        Ok(v) => v,
        Err(_) => {
            return None;
        },
    };
    let rd = match dec_ou64s(es, "rd") {
        Ok(v) => v,
        Err(_) => {
            return None;
        },
    };
    Some(ReceiptSelection { root_contract_id, to_address, asset_id, receipt_type, sender, recipient, contract_id, ra, rb, rc, rd })
}

proof fn lemma_rel_shape_receipt_selection(es: Seq<Entry>, s: ReceiptSelection)
    requires
        rel_receipt_selection(es, s),
    ensures
        shape_receipt_selection(es),
{
    lemma_rel_shape_ostrs(lookup(es, "root_contract_id"@), s.root_contract_id);
    lemma_rel_shape_ostrs(lookup(es, "to_address"@), s.to_address);
    lemma_rel_shape_ostrs(lookup(es, "asset_id"@), s.asset_id);
    lemma_rel_shape_ou8s(lookup(es, "receipt_type"@), s.receipt_type);
    lemma_rel_shape_ostrs(lookup(es, "sender"@), s.sender);
    lemma_rel_shape_ostrs(lookup(es, "recipient"@), s.recipient);
    lemma_rel_shape_ostrs(lookup(es, "contract_id"@), s.contract_id);
    lemma_rel_shape_ou64s(lookup(es, "ra"@), s.ra);
    lemma_rel_shape_ou64s(lookup(es, "rb"@), s.rb);
    lemma_rel_shape_ou64s(lookup(es, "rc"@), s.rc);
    lemma_rel_shape_ou64s(lookup(es, "rd"@), s.rd);
}

proof fn lemma_unique_receipt_selection(es: Seq<Entry>, a: ReceiptSelection, b: ReceiptSelection)
    requires
        rel_receipt_selection(es, a),
        rel_receipt_selection(es, b),
    ensures
        same_receipt_selection(a, b),
{
    lemma_unique_ostrs(lookup(es, "root_contract_id"@), a.root_contract_id, b.root_contract_id);
    lemma_unique_ostrs(lookup(es, "to_address"@), a.to_address, b.to_address);
    lemma_unique_ostrs(lookup(es, "asset_id"@), a.asset_id, b.asset_id);
    lemma_unique_ou8s(lookup(es, "receipt_type"@), a.receipt_type, b.receipt_type);
    lemma_unique_ostrs(lookup(es, "sender"@), a.sender, b.sender);
    lemma_unique_ostrs(lookup(es, "recipient"@), a.recipient, b.recipient);
    lemma_unique_ostrs(lookup(es, "contract_id"@), a.contract_id, b.contract_id);
    lemma_unique_ou64s(lookup(es, "ra"@), a.ra, b.ra);
    lemma_unique_ou64s(lookup(es, "rb"@), a.rb, b.rb);
    lemma_unique_ou64s(lookup(es, "rc"@), a.rc, b.rc);
    lemma_unique_ou64s(lookup(es, "rd"@), a.rd, b.rd);
}


pub open spec fn obj_receipt_selection(x: Value, s: ReceiptSelection) -> bool {
    match x {
        Value::Object(es) => rel_receipt_selection(es@, s),
        _ => false,
    }
}

pub open spec fn is_obj_receipt_selection(x: Value) -> bool {
    match x {
        Value::Object(es) => shape_receipt_selection(es@),
        _ => false,
    }
}

pub open spec fn rel_sels_receipt_selection(x: Option<Value>, f: Option<Vec<ReceiptSelection>>) -> bool {
    match f {
        Some(v) => match x {
            Some(Value::List(items)) => items@.len() == v@.len() && forall|i: int|
                0 <= i < items@.len() ==> obj_receipt_selection(#[trigger] items@[i], v@[i]),
            _ => false,
        },
        None => x is None,
    }
}

pub open spec fn all_obj_receipt_selection(items: Seq<Value>) -> bool {
    forall|i: int| 0 <= i < items.len() ==> is_obj_receipt_selection(#[trigger] items[i])
}

pub open spec fn shape_sels_receipt_selection(x: Option<Value>) -> bool {
    match x {
        None => true,
        Some(Value::List(items)) => all_obj_receipt_selection(items@),
        _ => false,
    }
}

pub open spec fn same_sels_receipt_selection(a: Option<Vec<ReceiptSelection>>, b: Option<Vec<ReceiptSelection>>) -> bool {
    match (a, b) {
        (Some(a), Some(b)) => a@.len() == b@.len() && forall|i: int|
            0 <= i < a@.len() ==> same_receipt_selection(#[trigger] a@[i], b@[i]),
        (None, None) => true,
        _ => false,
    }
}

fn enc_sels_receipt_selection(f: &Option<Vec<ReceiptSelection>>) -> (r: Option<Value>)
    ensures
        rel_sels_receipt_selection(r, *f),
{
    match f {
        Some(v) => {
            let mut items: Vec<Value> = Vec::new();
            let mut i: usize = 0;
            while i < v.len()
                invariant
                    i <= v@.len(),
                    items@.len() == i,
                    forall|j: int| 0 <= j < i ==> obj_receipt_selection(#[trigger] items@[j], v@[j]),
                decreases v@.len() - i,
            {
                items.push(Value::Object(encode_receipt_selection(&v[i])));
                i = i + 1;
            }
            Some(Value::List(items))
        },
        None => None,
    }
}

fn dec_sels_receipt_selection(es: &Vec<Entry>, key: &str) -> (r: Result<Option<Vec<ReceiptSelection>>, ()>)
    ensures
        r is Ok <==> shape_sels_receipt_selection(lookup(es@, key@)),
        r matches Ok(f) ==> rel_sels_receipt_selection(lookup(es@, key@), f),
{
    match find(es, key) {
        Some(k) => match &es[k].value {
            Value::List(items) => {
                let mut v: Vec<ReceiptSelection> = Vec::new();
                let mut i: usize = 0;
                while i < items.len()
                    invariant
                        i <= items@.len(),
                        lookup(es@, key@) == Some(Value::List(*items)),
                        v@.len() == i,
                        forall|j: int| 0 <= j < i ==> obj_receipt_selection(#[trigger] items@[j], v@[j]),
                        forall|j: int| 0 <= j < i ==> is_obj_receipt_selection(#[trigger] items@[j]),
                    decreases items@.len() - i,
                {
                    match &items[i] {
                        Value::Object(fields) => match decode_receipt_selection(fields) {
                            Some(s) => v.push(s),
                            None => {
                                assert(!is_obj_receipt_selection((*items)@[i as int]));
                            assert(!all_obj_receipt_selection((*items)@));
                                return Err(());
                            },
                        },
                        _ => {
                            assert(!is_obj_receipt_selection((*items)@[i as int]));
                            assert(!all_obj_receipt_selection((*items)@));
                            return Err(());
                        },
                    }
                    i = i + 1;
                }
                Ok(Some(v))
            },
            _ => Err(()),
        },
        None => Ok(None),
    }
}

proof fn lemma_rel_shape_sels_receipt_selection(x: Option<Value>, f: Option<Vec<ReceiptSelection>>)
    requires
        rel_sels_receipt_selection(x, f),
    ensures
        shape_sels_receipt_selection(x),
{
    if let (Some(v), Some(Value::List(items))) = (f, x) {
        assert forall|i: int| 0 <= i < items@.len() implies is_obj_receipt_selection(#[trigger] items@[i]) by {
            assert(obj_receipt_selection(items@[i], v@[i]));
            if let Value::Object(es) = items@[i] {
                lemma_rel_shape_receipt_selection(es@, v@[i]);
            }
        }
    }
}

proof fn lemma_unique_sels_receipt_selection(x: Option<Value>, a: Option<Vec<ReceiptSelection>>, b: Option<Vec<ReceiptSelection>>)
    requires
        rel_sels_receipt_selection(x, a),
        rel_sels_receipt_selection(x, b),
    ensures
        same_sels_receipt_selection(a, b),
{
    if let (Some(a), Some(b)) = (a, b) {
        if let Some(Value::List(items)) = x {
            assert forall|i: int| 0 <= i < a@.len() implies same_receipt_selection(#[trigger] a@[i], b@[i]) by {
                assert(obj_receipt_selection(items@[i], a@[i]));
                if let Value::Object(es) = items@[i] {
                    lemma_unique_receipt_selection(es@, a@[i], b@[i]);
                }
            }
        }
    }
}

/// Whether an object's fields hold those of `s`.
pub open spec fn rel_input_selection(es: Seq<Entry>, s: InputSelection) -> bool {
    &&& rel_ostrs(lookup(es, "owner"@), s.owner)
    &&& rel_ostrs(lookup(es, "asset_id"@), s.asset_id)
    &&& rel_ostrs(lookup(es, "contract"@), s.contract)
    &&& rel_ostrs(lookup(es, "sender"@), s.sender)
    &&& rel_ostrs(lookup(es, "recipient"@), s.recipient)
    &&& rel_ou8s(lookup(es, "input_type"@), s.input_type)
}

/// Whether an object can be read as a `InputSelection`.
pub open spec fn shape_input_selection(es: Seq<Entry>) -> bool {
    &&& shape_ostrs(lookup(es, "owner"@))
    &&& shape_ostrs(lookup(es, "asset_id"@))
    &&& shape_ostrs(lookup(es, "contract"@))
    &&& shape_ostrs(lookup(es, "sender"@))
    &&& shape_ostrs(lookup(es, "recipient"@))
    &&& shape_ou8s(lookup(es, "input_type"@))
}

/// Whether two values of `InputSelection` have the same contents.
pub open spec fn same_input_selection(a: InputSelection, b: InputSelection) -> bool {
    &&& same_ostrs(a.owner, b.owner)
    &&& same_ostrs(a.asset_id, b.asset_id)
    &&& same_ostrs(a.contract, b.contract)
    &&& same_ostrs(a.sender, b.sender)
    &&& same_ostrs(a.recipient, b.recipient)
    &&& same_ou8s(a.input_type, b.input_type)
}

fn encode_input_selection(s: &InputSelection) -> (r: Vec<Entry>)
    ensures
        rel_input_selection(r@, *s),
{
    proof {
        reveal_strlit("owner");
        assert("owner"@ =~= seq!['o', 'w', 'n', 'e', 'r']);
        reveal_strlit("asset_id");
        assert("asset_id"@ =~= seq!['a', 's', 's', 'e', 't', '_', 'i', 'd']);
        reveal_strlit("contract");
        assert("contract"@ =~= seq!['c', 'o', 'n', 't', 'r', 'a', 'c', 't']);
        reveal_strlit("sender");
        assert("sender"@ =~= seq!['s', 'e', 'n', 'd', 'e', 'r']);
        reveal_strlit("recipient");
        assert("recipient"@ =~= seq!['r', 'e', 'c', 'i', 'p', 'i', 'e', 'n', 't']);
        reveal_strlit("input_type");
        assert("input_type"@ =~= seq!['i', 'n', 'p', 'u', 't', '_', 't', 'y', 'p', 'e']);
    }
    let mut es: Vec<Entry> = Vec::new();
    push_field(&mut es, "owner", enc_ostrs(&s.owner));
    push_field(&mut es, "asset_id", enc_ostrs(&s.asset_id));
    push_field(&mut es, "contract", enc_ostrs(&s.contract));
    push_field(&mut es, "sender", enc_ostrs(&s.sender));
    push_field(&mut es, "recipient", enc_ostrs(&s.recipient));
    push_field(&mut es, "input_type", enc_ou8s(&s.input_type));
    es
}

fn decode_input_selection(es: &Vec<Entry>) -> (r: Option<InputSelection>)
    ensures
        r is Some <==> shape_input_selection(es@),
        r matches Some(s) ==> rel_input_selection(es@, s),
{
    let owner = match dec_ostrs(es, "owner") {
        Ok(v) => v,
        Err(_) => {
            return None;
        },
    };
    let asset_id = match dec_ostrs(es, "asset_id") {
        Ok(v) => v,
        Err(_) => {
            return None;
        },
    };
    let contract = match dec_ostrs(es, "contract") {
        Ok(v) => v,
        Err(_) => {
            return None;
        },
    };
    let sender = match dec_ostrs(es, "sender") {
        Ok(v) => v,
        Err(_) => {
            return None;
        },
    };
    let recipient = match dec_ostrs(es, "recipient") {
        Ok(v) => v,
        Err(_) => {
            return None;
        },
    };
    let input_type = match dec_ou8s(es, "input_type") {
        Ok(v) => v,
        Err(_) => {
            return None;
        },
    };
    Some(InputSelection { owner, asset_id, contract, sender, recipient, input_type })
}

proof fn lemma_rel_shape_input_selection(es: Seq<Entry>, s: InputSelection)
    requires
        rel_input_selection(es, s),
    ensures
        shape_input_selection(es),
{
    lemma_rel_shape_ostrs(lookup(es, "owner"@), s.owner);
    lemma_rel_shape_ostrs(lookup(es, "asset_id"@), s.asset_id);
    lemma_rel_shape_ostrs(lookup(es, "contract"@), s.contract);
    lemma_rel_shape_ostrs(lookup(es, "sender"@), s.sender);
    lemma_rel_shape_ostrs(lookup(es, "recipient"@), s.recipient);
    lemma_rel_shape_ou8s(lookup(es, "input_type"@), s.input_type);
}

proof fn lemma_unique_input_selection(es: Seq<Entry>, a: InputSelection, b: InputSelection)
    requires
        rel_input_selection(es, a),
        rel_input_selection(es, b),
    ensures
        same_input_selection(a, b),
{
    lemma_unique_ostrs(lookup(es, "owner"@), a.owner, b.owner);
    lemma_unique_ostrs(lookup(es, "asset_id"@), a.asset_id, b.asset_id);
    lemma_unique_ostrs(lookup(es, "contract"@), a.contract, b.contract);
    lemma_unique_ostrs(lookup(es, "sender"@), a.sender, b.sender);
    lemma_unique_ostrs(lookup(es, "recipient"@), a.recipient, b.recipient);
    lemma_unique_ou8s(lookup(es, "input_type"@), a.input_type, b.input_type);
}


pub open spec fn obj_input_selection(x: Value, s: InputSelection) -> bool {
    match x {
        Value::Object(es) => rel_input_selection(es@, s),
        _ => false,
    }
}

pub open spec fn is_obj_input_selection(x: Value) -> bool {
    match x {
        Value::Object(es) => shape_input_selection(es@),
        _ => false,
    }
}

pub open spec fn rel_sels_input_selection(x: Option<Value>, f: Option<Vec<InputSelection>>) -> bool {
    match f {
        Some(v) => match x {
            Some(Value::List(items)) => items@.len() == v@.len() && forall|i: int|
                0 <= i < items@.len() ==> obj_input_selection(#[trigger] items@[i], v@[i]),
            _ => false,
        },
        None => x is None,
    }
}

pub open spec fn all_obj_input_selection(items: Seq<Value>) -> bool {
    forall|i: int| 0 <= i < items.len() ==> is_obj_input_selection(#[trigger] items[i])
}

pub open spec fn shape_sels_input_selection(x: Option<Value>) -> bool {
    match x {
        None => true,
        Some(Value::List(items)) => all_obj_input_selection(items@),
        _ => false,
    }
}

pub open spec fn same_sels_input_selection(a: Option<Vec<InputSelection>>, b: Option<Vec<InputSelection>>) -> bool {
    match (a, b) {
        (Some(a), Some(b)) => a@.len() == b@.len() && forall|i: int|
            0 <= i < a@.len() ==> same_input_selection(#[trigger] a@[i], b@[i]),
        (None, None) => true,
        _ => false,
    }
}

fn enc_sels_input_selection(f: &Option<Vec<InputSelection>>) -> (r: Option<Value>)
    ensures
        rel_sels_input_selection(r, *f),
{
    match f {
        Some(v) => {
            let mut items: Vec<Value> = Vec::new();
            let mut i: usize = 0;
            while i < v.len()
                invariant
                    i <= v@.len(),
                    items@.len() == i,
                    forall|j: int| 0 <= j < i ==> obj_input_selection(#[trigger] items@[j], v@[j]),
                decreases v@.len() - i,
            {
                items.push(Value::Object(encode_input_selection(&v[i])));
                i = i + 1;
            }
            Some(Value::List(items))
        },
        None => None,
    }
}

fn dec_sels_input_selection(es: &Vec<Entry>, key: &str) -> (r: Result<Option<Vec<InputSelection>>, ()>)
    ensures
        r is Ok <==> shape_sels_input_selection(lookup(es@, key@)),
        r matches Ok(f) ==> rel_sels_input_selection(lookup(es@, key@), f),
{
    match find(es, key) {
        Some(k) => match &es[k].value {
            Value::List(items) => {
                let mut v: Vec<InputSelection> = Vec::new();
                let mut i: usize = 0;
                while i < items.len()
                    invariant
                        i <= items@.len(),
                        lookup(es@, key@) == Some(Value::List(*items)),
                        v@.len() == i,
                        forall|j: int| 0 <= j < i ==> obj_input_selection(#[trigger] items@[j], v@[j]),
                        forall|j: int| 0 <= j < i ==> is_obj_input_selection(#[trigger] items@[j]),
                    decreases items@.len() - i,
                {
                    match &items[i] {
                        Value::Object(fields) => match decode_input_selection(fields) {
                            Some(s) => v.push(s),
                            None => {
                                assert(!is_obj_input_selection((*items)@[i as int]));
                            assert(!all_obj_input_selection((*items)@));
                                return Err(());
                            },
                        },
                        _ => {
                            assert(!is_obj_input_selection((*items)@[i as int]));
                            assert(!all_obj_input_selection((*items)@));
                            return Err(());
                        },
                    }
                    i = i + 1;
                }
                Ok(Some(v))
            },
            _ => Err(()),
        },
        None => Ok(None),
    }
}

proof fn lemma_rel_shape_sels_input_selection(x: Option<Value>, f: Option<Vec<InputSelection>>)
    requires
        rel_sels_input_selection(x, f),
    ensures
        shape_sels_input_selection(x),
{
    if let (Some(v), Some(Value::List(items))) = (f, x) {
        assert forall|i: int| 0 <= i < items@.len() implies is_obj_input_selection(#[trigger] items@[i]) by {
            assert(obj_input_selection(items@[i], v@[i]));
            if let Value::Object(es) = items@[i] {
                lemma_rel_shape_input_selection(es@, v@[i]);
            }
        }
    }
}

proof fn lemma_unique_sels_input_selection(x: Option<Value>, a: Option<Vec<InputSelection>>, b: Option<Vec<InputSelection>>)
    requires
        rel_sels_input_selection(x, a),
        rel_sels_input_selection(x, b),
    ensures
        same_sels_input_selection(a, b),
{
    if let (Some(a), Some(b)) = (a, b) {
        if let Some(Value::List(items)) = x {
            assert forall|i: int| 0 <= i < a@.len() implies same_input_selection(#[trigger] a@[i], b@[i]) by {
                assert(obj_input_selection(items@[i], a@[i]));
                if let Value::Object(es) = items@[i] {
                    lemma_unique_input_selection(es@, a@[i], b@[i]);
                }
            }
        }
    }
}

/// Whether an object's fields hold those of `s`.
pub open spec fn rel_output_selection(es: Seq<Entry>, s: OutputSelection) -> bool {
    &&& rel_ostrs(lookup(es, "to"@), s.to)
    &&& rel_ostrs(lookup(es, "asset_id"@), s.asset_id)
    &&& rel_ostrs(lookup(es, "contract"@), s.contract)
    &&& rel_ou8s(lookup(es, "output_type"@), s.output_type)
}

/// Whether an object can be read as a `OutputSelection`.
pub open spec fn shape_output_selection(es: Seq<Entry>) -> bool {
    &&& shape_ostrs(lookup(es, "to"@))
    &&& shape_ostrs(lookup(es, "asset_id"@))
    &&& shape_ostrs(lookup(es, "contract"@))
    &&& shape_ou8s(lookup(es, "output_type"@))
}

/// Whether two values of `OutputSelection` have the same contents.
pub open spec fn same_output_selection(a: OutputSelection, b: OutputSelection) -> bool {
    &&& same_ostrs(a.to, b.to)
    &&& same_ostrs(a.asset_id, b.asset_id)
    &&& same_ostrs(a.contract, b.contract)
    &&& same_ou8s(a.output_type, b.output_type)
}

fn encode_output_selection(s: &OutputSelection) -> (r: Vec<Entry>)
    ensures
        rel_output_selection(r@, *s),
{
    proof {
        reveal_strlit("to");
        assert("to"@ =~= seq!['t', 'o']);
        reveal_strlit("asset_id");
        assert("asset_id"@ =~= seq!['a', 's', 's', 'e', 't', '_', 'i', 'd']);
        reveal_strlit("contract");
        assert("contract"@ =~= seq!['c', 'o', 'n', 't', 'r', 'a', 'c', 't']);
        reveal_strlit("output_type");
        assert("output_type"@ =~= seq!['o', 'u', 't', 'p', 'u', 't', '_', 't', 'y', 'p', 'e']);
    }
    let mut es: Vec<Entry> = Vec::new();
    push_field(&mut es, "to", enc_ostrs(&s.to));
    push_field(&mut es, "asset_id", enc_ostrs(&s.asset_id));
    push_field(&mut es, "contract", enc_ostrs(&s.contract));
    push_field(&mut es, "output_type", enc_ou8s(&s.output_type));
    es
}

fn decode_output_selection(es: &Vec<Entry>) -> (r: Option<OutputSelection>)
    ensures
        r is Some <==> shape_output_selection(es@),
        r matches Some(s) ==> rel_output_selection(es@, s),
{
    let to = match dec_ostrs(es, "to") {
        Ok(v) => v,
        Err(_) => {
            return None;
        },
    };
    let asset_id = match dec_ostrs(es, "asset_id") {
        Ok(v) => v,
        Err(_) => {
            return None;
        },
    };
    let contract = match dec_ostrs(es, "contract") {
        Ok(v) => v,
        Err(_) => {
            return None;
        },
    };
    let output_type = match dec_ou8s(es, "output_type") {
        Ok(v) => v,
        Err(_) => {
            return None;
        },
    };
    Some(OutputSelection { to, asset_id, contract, output_type })
}

proof fn lemma_rel_shape_output_selection(es: Seq<Entry>, s: OutputSelection)
    requires
        rel_output_selection(es, s),
    ensures
        shape_output_selection(es),
{
    lemma_rel_shape_ostrs(lookup(es, "to"@), s.to);
    lemma_rel_shape_ostrs(lookup(es, "asset_id"@), s.asset_id);
    lemma_rel_shape_ostrs(lookup(es, "contract"@), s.contract);
    lemma_rel_shape_ou8s(lookup(es, "output_type"@), s.output_type);
}

proof fn lemma_unique_output_selection(es: Seq<Entry>, a: OutputSelection, b: OutputSelection)
    requires
        rel_output_selection(es, a),
        rel_output_selection(es, b),
    ensures
        same_output_selection(a, b),
{
    lemma_unique_ostrs(lookup(es, "to"@), a.to, b.to);
    lemma_unique_ostrs(lookup(es, "asset_id"@), a.asset_id, b.asset_id);
    lemma_unique_ostrs(lookup(es, "contract"@), a.contract, b.contract);
    lemma_unique_ou8s(lookup(es, "output_type"@), a.output_type, b.output_type);
}


pub open spec fn obj_output_selection(x: Value, s: OutputSelection) -> bool {
    match x {
        Value::Object(es) => rel_output_selection(es@, s),
        _ => false,
    }
}

pub open spec fn is_obj_output_selection(x: Value) -> bool {
    match x {
        Value::Object(es) => shape_output_selection(es@),
        _ => false,
    }
}

pub open spec fn rel_sels_output_selection(x: Option<Value>, f: Option<Vec<OutputSelection>>) -> bool {
    match f {
        Some(v) => match x {
            Some(Value::List(items)) => items@.len() == v@.len() && forall|i: int|
                0 <= i < items@.len() ==> obj_output_selection(#[trigger] items@[i], v@[i]),
            _ => false,
        },
        None => x is None,
    }
}

pub open spec fn all_obj_output_selection(items: Seq<Value>) -> bool {
    forall|i: int| 0 <= i < items.len() ==> is_obj_output_selection(#[trigger] items[i])
}

pub open spec fn shape_sels_output_selection(x: Option<Value>) -> bool {
    match x {
        None => true,
        Some(Value::List(items)) => all_obj_output_selection(items@),
        _ => false,
    }
}

pub open spec fn same_sels_output_selection(a: Option<Vec<OutputSelection>>, b: Option<Vec<OutputSelection>>) -> bool {
    match (a, b) {
        (Some(a), Some(b)) => a@.len() == b@.len() && forall|i: int|
            0 <= i < a@.len() ==> same_output_selection(#[trigger] a@[i], b@[i]),
        (None, None) => true,
        _ => false,
    }
}

fn enc_sels_output_selection(f: &Option<Vec<OutputSelection>>) -> (r: Option<Value>)
    ensures
        rel_sels_output_selection(r, *f),
{
    match f {
        Some(v) => {
            let mut items: Vec<Value> = Vec::new();
            let mut i: usize = 0;
            while i < v.len()
                invariant
                    i <= v@.len(),
                    items@.len() == i,
                    forall|j: int| 0 <= j < i ==> obj_output_selection(#[trigger] items@[j], v@[j]),
                decreases v@.len() - i,
            {
                items.push(Value::Object(encode_output_selection(&v[i])));
                i = i + 1;
            }
            Some(Value::List(items))
        },
        None => None,
    }
}

fn dec_sels_output_selection(es: &Vec<Entry>, key: &str) -> (r: Result<Option<Vec<OutputSelection>>, ()>)
    ensures
        r is Ok <==> shape_sels_output_selection(lookup(es@, key@)),
        r matches Ok(f) ==> rel_sels_output_selection(lookup(es@, key@), f),
{
    match find(es, key) {
        Some(k) => match &es[k].value {
            Value::List(items) => {
                let mut v: Vec<OutputSelection> = Vec::new();
                let mut i: usize = 0;
                while i < items.len()
                    invariant
                        i <= items@.len(),
                        lookup(es@, key@) == Some(Value::List(*items)),
                        v@.len() == i,
                        forall|j: int| 0 <= j < i ==> obj_output_selection(#[trigger] items@[j], v@[j]),
                        forall|j: int| 0 <= j < i ==> is_obj_output_selection(#[trigger] items@[j]),
                    decreases items@.len() - i,
                {
                    match &items[i] {
                        Value::Object(fields) => match decode_output_selection(fields) {
                            Some(s) => v.push(s),
                            None => {
                                assert(!is_obj_output_selection((*items)@[i as int]));
                            assert(!all_obj_output_selection((*items)@));
                                return Err(());
                            },
                        },
                        _ => {
                            assert(!is_obj_output_selection((*items)@[i as int]));
                            assert(!all_obj_output_selection((*items)@));
                            return Err(());
                        },
                    }
                    i = i + 1;
                }
                Ok(Some(v))
            },
            _ => Err(()),
        },
        None => Ok(None),
    }
}

proof fn lemma_rel_shape_sels_output_selection(x: Option<Value>, f: Option<Vec<OutputSelection>>)
    requires
        rel_sels_output_selection(x, f),
    ensures
        shape_sels_output_selection(x),
{
    if let (Some(v), Some(Value::List(items))) = (f, x) {
        assert forall|i: int| 0 <= i < items@.len() implies is_obj_output_selection(#[trigger] items@[i]) by {
            assert(obj_output_selection(items@[i], v@[i]));
            if let Value::Object(es) = items@[i] {
                lemma_rel_shape_output_selection(es@, v@[i]);
            }
        }
    }
}

proof fn lemma_unique_sels_output_selection(x: Option<Value>, a: Option<Vec<OutputSelection>>, b: Option<Vec<OutputSelection>>)
    requires
        rel_sels_output_selection(x, a),
        rel_sels_output_selection(x, b),
    ensures
        same_sels_output_selection(a, b),
{
    if let (Some(a), Some(b)) = (a, b) {
        if let Some(Value::List(items)) = x {
            assert forall|i: int| 0 <= i < a@.len() implies same_output_selection(#[trigger] a@[i], b@[i]) by {
                assert(obj_output_selection(items@[i], a@[i]));
                if let Value::Object(es) = items@[i] {
                    lemma_unique_output_selection(es@, a@[i], b@[i]);
                }
            }
        }
    }
}

/// Whether an object's fields hold those of `s`.
pub open spec fn rel_field_selection(es: Seq<Entry>, s: FieldSelection) -> bool {
    &&& rel_ostrs(lookup(es, "block"@), s.block)
    &&& rel_ostrs(lookup(es, "transaction"@), s.transaction)
    &&& rel_ostrs(lookup(es, "receipt"@), s.receipt)
    &&& rel_ostrs(lookup(es, "input"@), s.input)
    &&& rel_ostrs(lookup(es, "output"@), s.output)
}

/// Whether an object can be read as a `FieldSelection`.
pub open spec fn shape_field_selection(es: Seq<Entry>) -> bool {
    &&& shape_ostrs(lookup(es, "block"@))
    &&& shape_ostrs(lookup(es, "transaction"@))
    &&& shape_ostrs(lookup(es, "receipt"@))
    &&& shape_ostrs(lookup(es, "input"@))
    &&& shape_ostrs(lookup(es, "output"@))
}

/// Whether two values of `FieldSelection` have the same contents.
pub open spec fn same_field_selection(a: FieldSelection, b: FieldSelection) -> bool {
    &&& same_ostrs(a.block, b.block)
    &&& same_ostrs(a.transaction, b.transaction)
    &&& same_ostrs(a.receipt, b.receipt)
    &&& same_ostrs(a.input, b.input)
    &&& same_ostrs(a.output, b.output)
}

fn encode_field_selection(s: &FieldSelection) -> (r: Vec<Entry>)
    ensures
        rel_field_selection(r@, *s),
{
    proof {
        reveal_strlit("block");
        assert("block"@ =~= seq!['b', 'l', 'o', 'c', 'k']);
        reveal_strlit("transaction");
        assert("transaction"@ =~= seq!['t', 'r', 'a', 'n', 's', 'a', 'c', 't', 'i', 'o', 'n']);
        reveal_strlit("receipt");
        assert("receipt"@ =~= seq!['r', 'e', 'c', 'e', 'i', 'p', 't']);
        reveal_strlit("input");
        assert("input"@ =~= seq!['i', 'n', 'p', 'u', 't']);
        reveal_strlit("output");
        assert("output"@ =~= seq!['o', 'u', 't', 'p', 'u', 't']);
    }
    let mut es: Vec<Entry> = Vec::new();
    push_field(&mut es, "block", enc_ostrs(&s.block));
    push_field(&mut es, "transaction", enc_ostrs(&s.transaction));
    push_field(&mut es, "receipt", enc_ostrs(&s.receipt));
    push_field(&mut es, "input", enc_ostrs(&s.input));
    push_field(&mut es, "output", enc_ostrs(&s.output));
    es
}

fn decode_field_selection(es: &Vec<Entry>) -> (r: Option<FieldSelection>)
    ensures
        r is Some <==> shape_field_selection(es@),
        r matches Some(s) ==> rel_field_selection(es@, s),
{
    let block = match dec_ostrs(es, "block") {
        Ok(v) => v,
        Err(_) => {
            return None;
        },
    };
    let transaction = match dec_ostrs(es, "transaction") {
        Ok(v) => v,
        Err(_) => {
            return None;
        },
    };
    let receipt = match dec_ostrs(es, "receipt") {
        Ok(v) => v,
        Err(_) => {
            return None;
        },
    };
    let input = match dec_ostrs(es, "input") {
        Ok(v) => v,
        Err(_) => {
            return None;
        },
    };
    let output = match dec_ostrs(es, "output") {
        Ok(v) => v,
        Err(_) => {
            return None;
        },
    };
    Some(FieldSelection { block, transaction, receipt, input, output })
}

proof fn lemma_rel_shape_field_selection(es: Seq<Entry>, s: FieldSelection)
    requires
        rel_field_selection(es, s),
    ensures
        shape_field_selection(es),
{
    lemma_rel_shape_ostrs(lookup(es, "block"@), s.block);
    lemma_rel_shape_ostrs(lookup(es, "transaction"@), s.transaction);
    lemma_rel_shape_ostrs(lookup(es, "receipt"@), s.receipt);
    lemma_rel_shape_ostrs(lookup(es, "input"@), s.input);
    lemma_rel_shape_ostrs(lookup(es, "output"@), s.output);
}

proof fn lemma_unique_field_selection(es: Seq<Entry>, a: FieldSelection, b: FieldSelection)
    requires
        rel_field_selection(es, a),
        rel_field_selection(es, b),
    ensures
        same_field_selection(a, b),
{
    lemma_unique_ostrs(lookup(es, "block"@), a.block, b.block);
    lemma_unique_ostrs(lookup(es, "transaction"@), a.transaction, b.transaction);
    lemma_unique_ostrs(lookup(es, "receipt"@), a.receipt, b.receipt);
    lemma_unique_ostrs(lookup(es, "input"@), a.input, b.input);
    lemma_unique_ostrs(lookup(es, "output"@), a.output, b.output);
}


pub open spec fn rel_rec_field_selection(x: Option<Value>, f: FieldSelection) -> bool {
    match x {
        Some(Value::Object(es)) => rel_field_selection(es@, f),
        _ => false,
    }
}

pub open spec fn shape_rec_field_selection(x: Option<Value>) -> bool {
    match x {
        Some(Value::Object(es)) => shape_field_selection(es@),
        _ => false,
    }
}

pub open spec fn same_rec_field_selection(a: FieldSelection, b: FieldSelection) -> bool {
    same_field_selection(a, b)
}

fn enc_rec_field_selection(f: &FieldSelection) -> (r: Option<Value>)
    ensures
        rel_rec_field_selection(r, *f),
{
    Some(Value::Object(encode_field_selection(f)))
}

fn dec_rec_field_selection(es: &Vec<Entry>, key: &str) -> (r: Result<FieldSelection, ()>)
    ensures
        r is Ok <==> shape_rec_field_selection(lookup(es@, key@)),
        r matches Ok(f) ==> rel_rec_field_selection(lookup(es@, key@), f),
{
    match find(es, key) {
        Some(k) => match &es[k].value {
            Value::Object(fields) => match decode_field_selection(fields) {
                Some(s) => Ok(s),
                None => Err(()),
            },
            _ => Err(()),
        },
        None => Err(()),
    }
}

proof fn lemma_rel_shape_rec_field_selection(x: Option<Value>, f: FieldSelection)
    requires
        rel_rec_field_selection(x, f),
    ensures
        shape_rec_field_selection(x),
{
    if let Some(Value::Object(es)) = x {
        lemma_rel_shape_field_selection(es@, f);
    }
}

proof fn lemma_unique_rec_field_selection(x: Option<Value>, a: FieldSelection, b: FieldSelection)
    requires
        rel_rec_field_selection(x, a),
        rel_rec_field_selection(x, b),
    ensures
        same_rec_field_selection(a, b),
{
    if let Some(Value::Object(es)) = x {
        lemma_unique_field_selection(es@, a, b);
    }
}

/// Whether an object's fields hold those of `s`.
pub open spec fn rel_query(es: Seq<Entry>, s: Query) -> bool {
    &&& rel_u64(lookup(es, "from_block"@), s.from_block)
    &&& rel_ou64(lookup(es, "to_block"@), s.to_block)
    &&& rel_sels_receipt_selection(lookup(es, "receipts"@), s.receipts)
    &&& rel_sels_input_selection(lookup(es, "inputs"@), s.inputs)
    &&& rel_sels_output_selection(lookup(es, "outputs"@), s.outputs)
    &&& rel_obool(lookup(es, "include_all_blocks"@), s.include_all_blocks)
    &&& rel_rec_field_selection(lookup(es, "field_selection"@), s.field_selection)
    &&& rel_ousize(lookup(es, "max_num_blocks"@), s.max_num_blocks)
    &&& rel_ousize(lookup(es, "max_num_transactions"@), s.max_num_transactions)
}

/// Whether an object can be read as a `Query`.
pub open spec fn shape_query(es: Seq<Entry>) -> bool {
    &&& shape_u64(lookup(es, "from_block"@))
    &&& shape_ou64(lookup(es, "to_block"@))
    &&& shape_sels_receipt_selection(lookup(es, "receipts"@))
    &&& shape_sels_input_selection(lookup(es, "inputs"@))
    &&& shape_sels_output_selection(lookup(es, "outputs"@))
    &&& shape_obool(lookup(es, "include_all_blocks"@))
    &&& shape_rec_field_selection(lookup(es, "field_selection"@))
    &&& shape_ousize(lookup(es, "max_num_blocks"@))
    &&& shape_ousize(lookup(es, "max_num_transactions"@))
}

/// Whether two values of `Query` have the same contents.
pub open spec fn same_query(a: Query, b: Query) -> bool {
    &&& same_u64(a.from_block, b.from_block)
    &&& same_ou64(a.to_block, b.to_block)
    &&& same_sels_receipt_selection(a.receipts, b.receipts)
    &&& same_sels_input_selection(a.inputs, b.inputs)
    &&& same_sels_output_selection(a.outputs, b.outputs)
    &&& same_obool(a.include_all_blocks, b.include_all_blocks)
    &&& same_rec_field_selection(a.field_selection, b.field_selection)
    &&& same_ousize(a.max_num_blocks, b.max_num_blocks)
    &&& same_ousize(a.max_num_transactions, b.max_num_transactions)
}

fn encode_query(s: &Query) -> (r: Vec<Entry>)
    ensures
        rel_query(r@, *s),
{
    proof {
        reveal_strlit("from_block");
        assert("from_block"@ =~= seq!['f', 'r', 'o', 'm', '_', 'b', 'l', 'o', 'c', 'k']);
        reveal_strlit("to_block");
        assert("to_block"@ =~= seq!['t', 'o', '_', 'b', 'l', 'o', 'c', 'k']);
        reveal_strlit("receipts");
        assert("receipts"@ =~= seq!['r', 'e', 'c', 'e', 'i', 'p', 't', 's']);
        reveal_strlit("inputs");
        assert("inputs"@ =~= seq!['i', 'n', 'p', 'u', 't', 's']);
        reveal_strlit("outputs");
        assert("outputs"@ =~= seq!['o', 'u', 't', 'p', 'u', 't', 's']);
        reveal_strlit("include_all_blocks");
        assert("include_all_blocks"@ =~= seq!['i', 'n', 'c', 'l', 'u', 'd', 'e', '_', 'a', 'l', 'l', '_', 'b', 'l', 'o', 'c', 'k', 's']);
        reveal_strlit("field_selection");
        assert("field_selection"@ =~= seq!['f', 'i', 'e', 'l', 'd', '_', 's', 'e', 'l', 'e', 'c', 't', 'i', 'o', 'n']);
        reveal_strlit("max_num_blocks");
        assert("max_num_blocks"@ =~= seq!['m', 'a', 'x', '_', 'n', 'u', 'm', '_', 'b', 'l', 'o', 'c', 'k', 's']);
        reveal_strlit("max_num_transactions");
        assert("max_num_transactions"@ =~= seq!['m', 'a', 'x', '_', 'n', 'u', 'm', '_', 't', 'r', 'a', 'n', 's', 'a', 'c', 't', 'i', 'o', 'n', 's']);
    }
    let mut es: Vec<Entry> = Vec::new();
    push_field(&mut es, "from_block", enc_u64(s.from_block));
    push_field(&mut es, "to_block", enc_ou64(&s.to_block));
    push_field(&mut es, "receipts", enc_sels_receipt_selection(&s.receipts));
    push_field(&mut es, "inputs", enc_sels_input_selection(&s.inputs));
    push_field(&mut es, "outputs", enc_sels_output_selection(&s.outputs));
    push_field(&mut es, "include_all_blocks", enc_obool(&s.include_all_blocks));
    push_field(&mut es, "field_selection", enc_rec_field_selection(&s.field_selection));
    push_field(&mut es, "max_num_blocks", enc_ousize(&s.max_num_blocks));
    push_field(&mut es, "max_num_transactions", enc_ousize(&s.max_num_transactions));
    es
}

fn decode_query(es: &Vec<Entry>) -> (r: Option<Query>)
    ensures
        r is Some <==> shape_query(es@),
        r matches Some(s) ==> rel_query(es@, s),
{
    let from_block = match dec_u64(es, "from_block") {
        Ok(v) => v,
        Err(_) => {
            return None;
        },
    };
    let to_block = match dec_ou64(es, "to_block") {
        Ok(v) => v,
        Err(_) => {
            return None;
        },
    };
    let receipts = match dec_sels_receipt_selection(es, "receipts") {
        Ok(v) => v,
        Err(_) => {
            return None;
        },
    };
    let inputs = match dec_sels_input_selection(es, "inputs") {
        Ok(v) => v,
        Err(_) => {
            return None;
        },
    };
    let outputs = match dec_sels_output_selection(es, "outputs") {
        Ok(v) => v,
        Err(_) => {
            return None;
        },
    };
    let include_all_blocks = match dec_obool(es, "include_all_blocks") {
        Ok(v) => v,
        Err(_) => {
            return None;
        },
    };
    let field_selection = match dec_rec_field_selection(es, "field_selection") {
        Ok(v) => v,
        Err(_) => {
            return None;
        },
    };
    let max_num_blocks = match dec_ousize(es, "max_num_blocks") {
        Ok(v) => v,
        Err(_) => {
            return None;
        },
    };
    let max_num_transactions = match dec_ousize(es, "max_num_transactions") {
        Ok(v) => v,
        Err(_) => {
            return None;
        },
    };
    Some(Query { from_block, to_block, receipts, inputs, outputs, include_all_blocks, field_selection, max_num_blocks, max_num_transactions })
}

proof fn lemma_rel_shape_query(es: Seq<Entry>, s: Query)
    requires
        rel_query(es, s),
    ensures
        shape_query(es),
{
    lemma_rel_shape_sels_receipt_selection(lookup(es, "receipts"@), s.receipts);
    lemma_rel_shape_sels_input_selection(lookup(es, "inputs"@), s.inputs);
    lemma_rel_shape_sels_output_selection(lookup(es, "outputs"@), s.outputs);
    lemma_rel_shape_rec_field_selection(lookup(es, "field_selection"@), s.field_selection);
}

proof fn lemma_unique_query(es: Seq<Entry>, a: Query, b: Query)
    requires
        rel_query(es, a),
        rel_query(es, b),
    ensures
        same_query(a, b),
{
    lemma_unique_sels_receipt_selection(lookup(es, "receipts"@), a.receipts, b.receipts);
    lemma_unique_sels_input_selection(lookup(es, "inputs"@), a.inputs, b.inputs);
    lemma_unique_sels_output_selection(lookup(es, "outputs"@), a.outputs, b.outputs);
    lemma_unique_rec_field_selection(lookup(es, "field_selection"@), a.field_selection, b.field_selection);
}


impl Query {
    /// The query as an object of named fields; absent optional fields are
    /// left out.
    pub fn to_structure(&self) -> (r: Value)
        ensures
            r matches Value::Object(es) && rel_query(es@, *self),
    {
        Value::Object(encode_query(self))
    }

    /// Reads a query back from an object of named fields. It fails when the
    /// value is not an object, when a required field is missing, or when a
    /// field holds a value of the wrong kind.
    pub fn from_structure(v: &Value) -> (r: Option<Query>)
        ensures
            r is Some <==> (v matches Value::Object(es) && shape_query(es@)),
            r matches Some(q) ==> (v matches Value::Object(es) && rel_query(es@, q)),
    {
        match v {
            Value::Object(es) => decode_query(es),
            _ => None,
        }
    }
}

/// Writing a query in the structural form and reading it back gives a query
/// with the same contents: reading succeeds on the written form, and any
/// query read from it agrees with the original field by field.
pub proof fn lemma_query_round_trip(q: Query, es: Seq<Entry>, back: Query)
    requires
        rel_query(es, q),
    ensures
        shape_query(es),
        rel_query(es, back) ==> same_query(q, back),
{
    lemma_rel_shape_query(es, q);
    if rel_query(es, back) {
        lemma_unique_query(es, q, back);
    }
}


} // verus!
