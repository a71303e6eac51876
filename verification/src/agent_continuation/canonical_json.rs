//! Canonical JSON bytes and the compatibility payload of a child runtime.
//!
//! Canonical bytes have no white space and sorted object keys, so that equal
//! values have equal bytes.

use vstd::prelude::*;
use vstd::utf8::encode_scalar;
use vstd::string::*;
use crate::agent_continuation::record::{worktree_view, WorktreeBinding, WorktreeView};
use crate::text::{characters, opt_chars};

verus! {

/// A JSON value. A number is held as it is written.
#[derive(Debug)]
pub enum JsonValue {
    Null,
    Bool(bool),
    Number(String),
    Text(String),
    Array(Vec<JsonValue>),
    Object(Vec<(String, JsonValue)>),
}

/// A hexadecimal digit, in lower case.
pub open spec fn hex_digit(n: u32) -> u8 {
    if n < 10 {
        (48 + n) as u8
    } else {
        (87 + n) as u8
    }
}

/// A character inside a JSON string: quotes, backslashes and control characters
/// are escaped, by their short form where they have one; all others stand in
/// UTF-8.
pub open spec fn json_character(c: char) -> Seq<u8> {
    let n = c as u32;
    if n == 34 || n == 92 {
        seq![92u8, n as u8]
    } else if n == 8 {
        seq![92u8, 98u8]
    } else if n == 9 {
        seq![92u8, 116u8]
    } else if n == 10 {
        seq![92u8, 110u8]
    } else if n == 12 {
        seq![92u8, 102u8]
    } else if n == 13 {
        seq![92u8, 114u8]
    } else if n < 32 {
        seq![92u8, 117u8, 48u8, 48u8, hex_digit(n / 16), hex_digit(n % 16)]
    } else {
        encode_scalar(n)
    }
}

/// The characters of a text inside a JSON string.
pub open spec fn json_characters(text: Seq<char>) -> Seq<u8>
    decreases text.len(),
{
    if text.len() == 0 {
        Seq::empty()
    } else {
        json_characters(text.drop_last()) + json_character(text.last())
    }
}

/// The bytes of a JSON string that holds `text`.
pub open spec fn json_string(text: Seq<char>) -> Seq<u8> {
    seq![34u8] + json_characters(text) + seq![34u8]
}

/// Calls `serde_json::to_vec` on a string. It writes the text between quotes,
/// with the escapes of JSON; writing a string into memory does not fail.
#[verifier::external_body]
fn json_string_bytes(text: &str) -> (r: Vec<u8>)
    ensures
        r@ == json_string(text@),
{
    serde_json::to_vec(text).unwrap_or_default()
}

/// Numbers ordered like texts: element by element, a prefix first.
pub open spec fn numbers_precede(a: Seq<u32>, b: Seq<u32>) -> bool
    decreases a.len(),
{
    if b.len() == 0 {
        false
    } else if a.len() == 0 {
        true
    } else if a[0] != b[0] {
        a[0] < b[0]
    } else {
        numbers_precede(a.skip(1), b.skip(1))
    }
}

/// Keys ordered part by part, a prefix first.
pub open spec fn key_precedes(a: Seq<Seq<u32>>, b: Seq<Seq<u32>>) -> bool
    decreases a.len(),
{
    if b.len() == 0 {
        false
    } else if a.len() == 0 {
        true
    } else if a[0] != b[0] {
        numbers_precede(a[0], b[0])
    } else {
        key_precedes(a.skip(1), b.skip(1))
    }
}

/// Bytes with the key that orders them.
pub ghost struct KeyedBytes {
    pub key: Seq<Seq<u32>>,
    pub bytes: Seq<u8>,
}

/// `list` with `item` behind everything that does not come after it.
pub open spec fn placed(list: Seq<KeyedBytes>, item: KeyedBytes) -> Seq<KeyedBytes>
    decreases list.len(),
{
    if list.len() > 0 && key_precedes(item.key, list.last().key) {
        placed(list.drop_last(), item).push(list.last())
    } else {
        list.push(item)
    }
}

/// The items in the order of their keys; items with the same key keep their
/// order.
pub open spec fn sorted(items: Seq<KeyedBytes>) -> Seq<KeyedBytes>
    decreases items.len(),
{
    if items.len() == 0 {
        Seq::empty()
    } else {
        placed(sorted(items.drop_last()), items.last())
    }
}

/// Nothing comes after something that it precedes.
pub open spec fn in_order(items: Seq<KeyedBytes>) -> bool {
    forall|i: int, j: int|
        0 <= i < j < items.len() ==> !key_precedes((#[trigger] items[j]).key, (#[trigger] items[i]).key)
}

/// The bytes with commas between them.
pub open spec fn with_commas(items: Seq<KeyedBytes>) -> Seq<u8>
    decreases items.len(),
{
    if items.len() == 0 {
        Seq::empty()
    } else if items.len() == 1 {
        items[0].bytes
    } else {
        with_commas(items.drop_last()) + seq![44u8] + items.last().bytes
    }
}

/// The code points of a text.
pub open spec fn code_points(text: Seq<char>) -> Seq<u32> {
    Seq::new(text.len(), |i: int| text[i] as u32)
}

/// Bytes as numbers.
pub open spec fn widened(bytes: Seq<u8>) -> Seq<u32> {
    Seq::new(bytes.len(), |i: int| bytes[i] as u32)
}

/// The bytes of an ASCII text.
pub open spec fn ascii(text: Seq<char>) -> Seq<u8> {
    Seq::new(text.len(), |i: int| text[i] as u8)
}

/// The canonical bytes of a value.
pub open spec fn canonical(value: JsonValue) -> Seq<u8>
    decreases value, 0nat,
{
    match value {
        JsonValue::Null => ascii("null"@),
        JsonValue::Bool(true) => ascii("true"@),
        JsonValue::Bool(false) => ascii("false"@),
        JsonValue::Number(text) => vstd::utf8::encode_utf8(text@),
        JsonValue::Text(text) => json_string(text@),
        JsonValue::Array(items) => seq![91u8] + with_commas(
            array_pieces(items, items@.len()),
        ) + seq![93u8],
        JsonValue::Object(entries) => seq![123u8] + with_commas(
            sorted(object_pieces(entries, entries@.len())),
        ) + seq![125u8],
    }
}

/// The canonical bytes of the first `n` items.
pub open spec fn array_pieces(items: Vec<JsonValue>, n: nat) -> Seq<KeyedBytes>
    decreases items, n,
{
    if n == 0 || n > items@.len() {
        Seq::empty()
    } else {
        array_pieces(items, (n - 1) as nat).push(
            KeyedBytes { key: Seq::empty(), bytes: canonical(items[n - 1]) },
        )
    }
}

/// The first `n` entries as keys, a colon and canonical bytes.
pub open spec fn object_pieces(entries: Vec<(String, JsonValue)>, n: nat) -> Seq<KeyedBytes>
    decreases entries, n,
{
    if n == 0 || n > entries@.len() {
        Seq::empty()
    } else {
        object_pieces(entries, (n - 1) as nat).push(
            KeyedBytes {
                key: seq![code_points(entries[n - 1].0@)],
                bytes: json_string(entries[n - 1].0@) + seq![58u8] + canonical(entries[n - 1].1),
            },
        )
    }
}

/// Bytes with the key that orders them.
struct Keyed {
    key: Vec<Vec<u32>>,
    bytes: Vec<u8>,
}

spec fn key_view(key: Seq<Vec<u32>>) -> Seq<Seq<u32>> {
    key.map_values(|part: Vec<u32>| part@)
}

impl View for Keyed {
    type V = KeyedBytes;

    closed spec fn view(&self) -> KeyedBytes {
        KeyedBytes { key: key_view(self.key@), bytes: self.bytes@ }
    }
}

spec fn keyed_views(list: Seq<Keyed>) -> Seq<KeyedBytes> {
    list.map_values(|k: Keyed| k@)
}

fn numbers_before(a: &Vec<u32>, b: &Vec<u32>) -> (r: bool)
    ensures
        r == numbers_precede(a@, b@),
{
    let mut i: usize = 0;
    assert(a@.skip(0) == a@ && b@.skip(0) == b@);
    while i < a.len() && i < b.len()
        invariant
            i <= a.len(),
            i <= b.len(),
            numbers_precede(a@, b@) == numbers_precede(a@.skip(i as int), b@.skip(i as int)),
        decreases a.len() - i,
    {
        if a[i] != b[i] {
            return a[i] < b[i];
        }
        assert(a@.skip(i as int).skip(1) == a@.skip(i + 1));
        assert(b@.skip(i as int).skip(1) == b@.skip(i + 1));
        i += 1;
    }
    i < b.len()
}

fn same_numbers(a: &Vec<u32>, b: &Vec<u32>) -> (r: bool)
    ensures
        r == (a@ == b@),
{
    if a.len() != b.len() {
        return false;
    }
    let mut i: usize = 0;
    while i < a.len()
        invariant
            i <= a.len(),
            a.len() == b.len(),
            forall|j: int| 0 <= j < i ==> a@[j] == b@[j],
        decreases a.len() - i,
    {
        if a[i] != b[i] {
            return false;
        }
        i += 1;
    }
    assert(a@ =~= b@);
    true
}

fn key_before(a: &Vec<Vec<u32>>, b: &Vec<Vec<u32>>) -> (r: bool)
    ensures
        r == key_precedes(key_view(a@), key_view(b@)),
{
    let ghost x = key_view(a@);
    let ghost y = key_view(b@);
    let mut i: usize = 0;
    assert(x.skip(0) == x && y.skip(0) == y);
    while i < a.len() && i < b.len()
        invariant
            i <= a.len(),
            i <= b.len(),
            x == key_view(a@),
            y == key_view(b@),
            key_precedes(x, y) == key_precedes(x.skip(i as int), y.skip(i as int)),
        decreases a.len() - i,
    {
        assert(x.skip(i as int)[0] == a@[i as int]@ && y.skip(i as int)[0] == b@[i as int]@);
        if !same_numbers(&a[i], &b[i]) {
            return numbers_before(&a[i], &b[i]);
        }
        assert(x.skip(i as int).skip(1) == x.skip(i + 1));
        assert(y.skip(i as int).skip(1) == y.skip(i + 1));
        i += 1;
    }
    i < b.len()
}

proof fn placed_before_suffix(front: Seq<KeyedBytes>, rest: Seq<KeyedBytes>, item: KeyedBytes)
    requires
        front.len() == 0 || !key_precedes(item.key, front.last().key),
        forall|i: int| 0 <= i < rest.len() ==> key_precedes(item.key, (#[trigger] rest[i]).key),
    ensures
        placed(front + rest, item) == front.push(item) + rest,
    decreases rest.len(),
{
    let all = front + rest;
    if rest.len() == 0 {
        assert(all == front);
        assert(front.push(item) + rest == front.push(item));
    } else {
        assert(all.last() == rest.last());
        assert(all.drop_last() == front + rest.drop_last());
        placed_before_suffix(front, rest.drop_last(), item);
        assert(placed(all, item) == (front.push(item) + rest.drop_last()).push(rest.last()));
        assert((front.push(item) + rest.drop_last()).push(rest.last()) == front.push(item) + rest);
    }
}

fn place(list: &mut Vec<Keyed>, item: Keyed)
    ensures
        keyed_views(final(list)@) == placed(keyed_views(old(list)@), item@),
{
    let ghost all = keyed_views(list@);
    let mut p: usize = list.len();
    while p > 0 && key_before(&item.key, &list[p - 1].key)
        invariant
            p <= list.len(),
            all == keyed_views(list@),
            forall|i: int| p <= i < all.len() ==> key_precedes(item@.key, (#[trigger] all[i]).key),
        decreases p,
    {
        assert(all[p - 1] == list@[p - 1]@);
        p -= 1;
    }
    proof {
        let front = all.take(p as int);
        let rest = all.skip(p as int);
        assert(all == front + rest);
        if p > 0 {
            assert(front.last() == list@[p - 1]@);
        }
        placed_before_suffix(front, rest, item@);
    }
    let ghost before = list@;
    list.insert(p, item);
    assert(keyed_views(list@) =~= all.take(p as int).push(item@) + all.skip(p as int));
}

fn join_with_commas(list: &Vec<Keyed>) -> (r: Vec<u8>)
    ensures
        r@ == with_commas(keyed_views(list@)),
{
    let ghost all = keyed_views(list@);
    let mut r: Vec<u8> = Vec::new();
    let mut i: usize = 0;
    while i < list.len()
        invariant
            i <= list.len(),
            all == keyed_views(list@),
            r@ == with_commas(all.take(i as int)),
        decreases list.len() - i,
    {
        proof {
            assert(all.take(i + 1).drop_last() == all.take(i as int));
            assert(all.take(i + 1).last() == list@[i as int]@);
        }
        if i > 0 {
            r.push(44);
        }
        append_bytes(&mut r, &list[i].bytes);
        i += 1;
    }
    assert(all.take(all.len() as int) == all);
    r
}

fn append_bytes(r: &mut Vec<u8>, more: &Vec<u8>)
    ensures
        final(r)@ == old(r)@ + more@,
{
    let mut i: usize = 0;
    while i < more.len()
        invariant
            i <= more.len(),
            r@ == old(r)@ + more@.take(i as int),
        decreases more.len() - i,
    {
        r.push(more[i]);
        assert(more@.take(i + 1) == more@.take(i as int).push(more@[i as int]));
        i += 1;
    }
    assert(more@.take(more@.len() as int) == more@);
}

fn ascii_bytes(text: &str) -> (r: Vec<u8>)
    requires
        forall|i: int| 0 <= i < text@.len() ==> (#[trigger] text@[i]) < '\u{80}',
    ensures
        r@ == ascii(text@),
{
    let v = characters(text);
    let mut r: Vec<u8> = Vec::new();
    let mut i: usize = 0;
    while i < v.len()
        invariant
            i <= v.len(),
            v@ == text@,
            forall|i: int| 0 <= i < text@.len() ==> (#[trigger] text@[i]) < '\u{80}',
            r@ == ascii(text@).take(i as int),
        decreases v.len() - i,
    {
        r.push(v[i] as u8);
        assert(ascii(text@).take(i + 1) == ascii(text@).take(i as int).push(ascii(text@)[i as int]));
        i += 1;
    }
    assert(ascii(text@).take(text@.len() as int) == ascii(text@));
    r
}

fn utf8_bytes(text: &str) -> (r: Vec<u8>)
    ensures
        r@ == vstd::utf8::encode_utf8(text@),
{
    text.as_bytes_vec()
}

fn text_key(text: &str) -> (r: Vec<u32>)
    ensures
        r@ == code_points(text@),
{
    let v = characters(text);
    let mut r: Vec<u32> = Vec::new();
    let mut i: usize = 0;
    while i < v.len()
        invariant
            i <= v.len(),
            v@ == text@,
            r@ =~= code_points(text@).take(i as int),
        decreases v.len() - i,
    {
        r.push(v[i] as u32);
        i += 1;
    }
    assert(code_points(text@).take(text@.len() as int) =~= code_points(text@));
    r
}

fn bytes_key(bytes: &Vec<u8>) -> (r: Vec<u32>)
    ensures
        r@ == widened(bytes@),
{
    let mut r: Vec<u32> = Vec::new();
    let mut i: usize = 0;
    while i < bytes.len()
        invariant
            i <= bytes.len(),
            r@ =~= widened(bytes@).take(i as int),
        decreases bytes.len() - i,
    {
        r.push(bytes[i] as u32);
        i += 1;
    }
    assert(widened(bytes@).take(bytes@.len() as int) =~= widened(bytes@));
    r
}

/// The canonical bytes of a value: no white space, object keys sorted.
pub fn canonical_json_bytes(value: &JsonValue) -> (r: Vec<u8>)
    ensures
        r@ == canonical(*value),
    decreases *value,
{
    match value {
        JsonValue::Null => {
            proof {
                reveal_strlit("null");
            }
            ascii_bytes("null")
        },
        JsonValue::Bool(b) => {
            proof {
                reveal_strlit("true");
                reveal_strlit("false");
            }
            if *b {
                ascii_bytes("true")
            } else {
                ascii_bytes("false")
            }
        },
        JsonValue::Number(text) => utf8_bytes(text.as_str()),
        JsonValue::Text(text) => json_string_bytes(text.as_str()),
        JsonValue::Array(items) => {
            let mut pieces: Vec<Keyed> = Vec::new();
            let mut i: usize = 0;
            assert(keyed_views(pieces@) =~= Seq::<KeyedBytes>::empty());
            while i < items.len()
                invariant
                    i <= items.len(),
                    keyed_views(pieces@) =~= array_pieces(*items, i as nat),
                    value is Array && value->Array_0 == *items,
                decreases items.len() - i,
            {
                let ghost before = pieces@;
                assert(decreases_to!(*value => value->Array_0));
                assert(decreases_to!(*items => items[i as int]));
                assert(decreases_to!(*value => items[i as int]));
                let bytes = canonical_json_bytes(&items[i]);
                let piece = Keyed { key: Vec::new(), bytes };
                assert(key_view(piece.key@) =~= Seq::<Seq<u32>>::empty());
                pieces.push(piece);
                assert(keyed_views(pieces@) =~= keyed_views(before).push(piece@));
                i += 1;
            }
            let mut r: Vec<u8> = vec![91];
            append_bytes(&mut r, &join_with_commas(&pieces));
            r.push(93);
            assert(r@ =~= seq![91u8] + with_commas(array_pieces(*items, items@.len()))
                + seq![93u8]);
            r
        },
        JsonValue::Object(entries) => {
            let mut pieces: Vec<Keyed> = Vec::new();
            let mut i: usize = 0;
            assert(keyed_views(pieces@) =~= Seq::<KeyedBytes>::empty());
            assert(sorted(object_pieces(*entries, 0)) =~= Seq::<KeyedBytes>::empty());
            while i < entries.len()
                invariant
                    i <= entries.len(),
                    keyed_views(pieces@) =~= sorted(object_pieces(*entries, i as nat)),
                    value is Object && value->Object_0 == *entries,
                decreases entries.len() - i,
            {
                let ghost so_far = object_pieces(*entries, i as nat);
                assert(decreases_to!(*value => value->Object_0));
                assert(decreases_to!(*entries => entries[i as int]));
                assert(decreases_to!(entries[i as int] => entries[i as int].1));
                assert(decreases_to!(*value => entries[i as int].1));
                let mut bytes = json_string_bytes(entries[i].0.as_str());
                bytes.push(58);
                append_bytes(&mut bytes, &canonical_json_bytes(&entries[i].1));
                let mut key: Vec<Vec<u32>> = Vec::new();
                key.push(text_key(entries[i].0.as_str()));
                let piece = Keyed { key, bytes };
                proof {
                    assert(key_view(piece.key@) =~= seq![code_points(entries[i as int].0@)]);
                    assert(piece.bytes@ =~= json_string(entries[i as int].0@) + seq![58u8]
                        + canonical(entries[i as int].1));
                    let next = object_pieces(*entries, (i + 1) as nat);
                    assert(next.drop_last() =~= so_far);
                    assert(next.last() == piece@);
                }
                place(&mut pieces, piece);
                i += 1;
            }
            let mut r: Vec<u8> = vec![123];
            append_bytes(&mut r, &join_with_commas(&pieces));
            r.push(125);
            assert(r@ =~= seq![123u8] + with_commas(
                sorted(object_pieces(*entries, entries@.len())),
            ) + seq![125u8]);
            r
        },
    }
}

/// A tool of an MCP server, as the compatibility payload lists it.
#[derive(Debug)]
pub struct McpToolIdentity {
    pub server: String,
    pub schema_name: String,
    pub name: String,
    pub tool: JsonValue,
}

/// The MCP tools with the keys that order them: server, schema name, name.
pub open spec fn mcp_pieces(tools: Seq<McpToolIdentity>) -> Seq<KeyedBytes> {
    Seq::new(
        tools.len(),
        |i: int|
            KeyedBytes {
                key: seq![
                    code_points(tools[i].server@),
                    code_points(tools[i].schema_name@),
                    code_points(tools[i].name@),
                ],
                bytes: canonical(tools[i].tool),
            },
    )
}

/// An external tool, as the compatibility payload lists it: whatever else is
/// configured of it does not count.
#[derive(Debug)]
pub struct ExternalToolIdentity {
    pub name: String,
    pub action_kind: JsonValue,
    pub command: JsonValue,
    pub description: JsonValue,
    pub schema: JsonValue,
}

/// The canonical bytes of an external tool, its fields in the order of their
/// names.
pub open spec fn external_json(tool: ExternalToolIdentity) -> Seq<u8> {
    seq![123u8] + field("action_kind"@, canonical(tool.action_kind)) + seq![44u8] + field(
        "command"@,
        canonical(tool.command),
    ) + seq![44u8] + field("description"@, canonical(tool.description)) + seq![44u8] + field(
        "name"@,
        json_string(tool.name@),
    ) + seq![44u8] + field("schema"@, canonical(tool.schema)) + seq![125u8]
}

/// The external tools, ordered by their canonical bytes.
pub open spec fn external_pieces(tools: Seq<ExternalToolIdentity>) -> Seq<KeyedBytes> {
    Seq::new(
        tools.len(),
        |i: int|
            KeyedBytes {
                key: seq![widened(external_json(tools[i]))],
                bytes: external_json(tools[i]),
            },
    )
}

/// Bytes in square brackets.
pub open spec fn bracketed(bytes: Seq<u8>) -> Seq<u8> {
    seq![91u8] + bytes + seq![93u8]
}

/// A field of an object.
pub open spec fn field(name: Seq<char>, bytes: Seq<u8>) -> Seq<u8> {
    json_string(name) + seq![58u8] + bytes
}

/// The canonical bytes of an optional text.
pub open spec fn opt_text_json(text: Option<Seq<char>>) -> Seq<u8> {
    match text {
        Some(t) => json_string(t),
        None => ascii("null"@),
    }
}

/// The canonical bytes of an optional worktree binding.
pub open spec fn worktree_json(worktree: Option<WorktreeView>) -> Seq<u8> {
    match worktree {
        None => ascii("null"@),
        Some(w) => seq![123u8] + field("path"@, json_string(w.path)) + seq![44u8] + field(
            "repo_root"@,
            json_string(w.repo_root),
        ) + seq![125u8],
    }
}

/// The canonical payload that the compatibility digest of a child runtime
/// covers, its fields in the order of their names.
pub open spec fn compatibility_payload(
    subagent_type: JsonValue,
    model: Option<Seq<char>>,
    isolation: JsonValue,
    effective_cwd: Seq<char>,
    worktree: Option<WorktreeView>,
    delegation: JsonValue,
    mcp_tools: Seq<McpToolIdentity>,
    external_tools: Seq<ExternalToolIdentity>,
) -> Seq<u8> {
    seq![123u8] + field("delegation"@, canonical(delegation)) + seq![44u8] + field(
        "effective_cwd"@,
        json_string(effective_cwd),
    ) + seq![44u8] + field(
        "external_tools"@,
        bracketed(with_commas(sorted(external_pieces(external_tools)))),
    ) + seq![44u8] + field("isolation"@, canonical(isolation)) + seq![44u8] + field(
        "mcp_tools"@,
        bracketed(with_commas(sorted(mcp_pieces(mcp_tools)))),
    ) + seq![44u8] + field("model"@, opt_text_json(model)) + seq![44u8] + field(
        "schema_version"@,
        ascii("1"@),
    ) + seq![44u8] + field("subagent_type"@, canonical(subagent_type)) + seq![44u8] + field(
        "worktree"@,
        worktree_json(worktree),
    ) + seq![125u8]
}

fn append_byte(r: &mut Vec<u8>, byte: u8)
    ensures
        final(r)@ == old(r)@ + seq![byte],
{
    r.push(byte);
    assert(r@ =~= old(r)@ + seq![byte]);
}

fn append_field(r: &mut Vec<u8>, name: &str, bytes: &Vec<u8>)
    ensures
        final(r)@ == old(r)@ + field(name@, bytes@),
{
    let mut piece = json_string_bytes(name);
    piece.push(58);
    append_bytes(&mut piece, bytes);
    append_bytes(r, &piece);
    assert(piece@ =~= field(name@, bytes@));
}

fn sorted_mcp_tools(tools: &Vec<McpToolIdentity>) -> (r: Vec<u8>)
    ensures
        r@ == bracketed(with_commas(sorted(mcp_pieces(tools@)))),
{
    let ghost all = mcp_pieces(tools@);
    let mut pieces: Vec<Keyed> = Vec::new();
    let mut i: usize = 0;
    assert(keyed_views(pieces@) =~= Seq::<KeyedBytes>::empty());
    while i < tools.len()
        invariant
            i <= tools.len(),
            all == mcp_pieces(tools@),
            keyed_views(pieces@) =~= sorted(all.take(i as int)),
        decreases tools.len() - i,
    {
        let tool = &tools[i];
        let mut key: Vec<Vec<u32>> = Vec::new();
        key.push(text_key(tool.server.as_str()));
        key.push(text_key(tool.schema_name.as_str()));
        key.push(text_key(tool.name.as_str()));
        let piece = Keyed { key, bytes: canonical_json_bytes(&tool.tool) };
        proof {
            assert(key_view(piece.key@) =~= all[i as int].key);
            assert(all.take(i + 1).drop_last() =~= all.take(i as int));
            assert(all.take(i + 1).last() == piece@);
        }
        place(&mut pieces, piece);
        i += 1;
    }
    assert(all.take(all.len() as int) =~= all);
    let mut r: Vec<u8> = vec![91];
    append_bytes(&mut r, &join_with_commas(&pieces));
    r.push(93);
    assert(r@ =~= bracketed(with_commas(sorted(all))));
    r
}

fn external_tool_bytes(tool: &ExternalToolIdentity) -> (r: Vec<u8>)
    ensures
        r@ == external_json(*tool),
{
    let mut r: Vec<u8> = vec![123];
    assert(r@ =~= seq![123u8]);
    append_field(&mut r, "action_kind", &canonical_json_bytes(&tool.action_kind));
    append_byte(&mut r, 44);
    append_field(&mut r, "command", &canonical_json_bytes(&tool.command));
    append_byte(&mut r, 44);
    append_field(&mut r, "description", &canonical_json_bytes(&tool.description));
    append_byte(&mut r, 44);
    append_field(&mut r, "name", &json_string_bytes(tool.name.as_str()));
    append_byte(&mut r, 44);
    append_field(&mut r, "schema", &canonical_json_bytes(&tool.schema));
    append_byte(&mut r, 125);
    r
}

fn sorted_external_tools(tools: &Vec<ExternalToolIdentity>) -> (r: Vec<u8>)
    ensures
        r@ == bracketed(with_commas(sorted(external_pieces(tools@)))),
{
    let ghost all = external_pieces(tools@);
    let mut pieces: Vec<Keyed> = Vec::new();
    let mut i: usize = 0;
    assert(keyed_views(pieces@) =~= Seq::<KeyedBytes>::empty());
    while i < tools.len()
        invariant
            i <= tools.len(),
            all == external_pieces(tools@),
            keyed_views(pieces@) =~= sorted(all.take(i as int)),
        decreases tools.len() - i,
    {
        let bytes = external_tool_bytes(&tools[i]);
        let mut key: Vec<Vec<u32>> = Vec::new();
        key.push(bytes_key(&bytes));
        let piece = Keyed { key, bytes };
        proof {
            assert(key_view(piece.key@) =~= all[i as int].key);
            assert(all.take(i + 1).drop_last() =~= all.take(i as int));
            assert(all.take(i + 1).last() == piece@);
        }
        place(&mut pieces, piece);
        i += 1;
    }
    assert(all.take(all.len() as int) =~= all);
    let mut r: Vec<u8> = vec![91];
    append_bytes(&mut r, &join_with_commas(&pieces));
    r.push(93);
    assert(r@ =~= bracketed(with_commas(sorted(all))));
    r
}

/// The bytes that the compatibility digest of a child runtime is computed over.
/// The order in which tools are registered does not matter.
pub fn continuation_compatibility_payload(
    subagent_type: &JsonValue,
    model: &Option<String>,
    isolation: &JsonValue,
    effective_cwd: &str,
    worktree: &Option<WorktreeBinding>,
    delegation: &JsonValue,
    mcp_tools: &Vec<McpToolIdentity>,
    external_tools: &Vec<ExternalToolIdentity>,
) -> (r: Vec<u8>)
    ensures
        r@ == compatibility_payload(
            *subagent_type,
            opt_chars(*model),
            *isolation,
            effective_cwd@,
            worktree_view(*worktree),
            *delegation,
            mcp_tools@,
            external_tools@,
        ),
{
    proof {
        reveal_strlit("null");
        reveal_strlit("1");
    }
    let mut r: Vec<u8> = vec![123];
    assert(r@ =~= seq![123u8]);
    append_field(&mut r, "delegation", &canonical_json_bytes(delegation));
    append_byte(&mut r, 44);
    append_field(&mut r, "effective_cwd", &json_string_bytes(effective_cwd));
    append_byte(&mut r, 44);
    append_field(&mut r, "external_tools", &sorted_external_tools(external_tools));
    append_byte(&mut r, 44);
    append_field(&mut r, "isolation", &canonical_json_bytes(isolation));
    append_byte(&mut r, 44);
    append_field(&mut r, "mcp_tools", &sorted_mcp_tools(mcp_tools));
    append_byte(&mut r, 44);
    let model_bytes = match model {
        Some(text) => json_string_bytes(text.as_str()),
        None => ascii_bytes("null"),
    };
    append_field(&mut r, "model", &model_bytes);
    append_byte(&mut r, 44);
    append_field(&mut r, "schema_version", &ascii_bytes("1"));
    append_byte(&mut r, 44);
    append_field(&mut r, "subagent_type", &canonical_json_bytes(subagent_type));
    append_byte(&mut r, 44);
    let worktree_bytes = match worktree {
        None => ascii_bytes("null"),
        Some(w) => {
            let mut b: Vec<u8> = vec![123];
            assert(b@ =~= seq![123u8]);
            append_field(&mut b, "path", &json_string_bytes(w.path.as_str()));
            append_byte(&mut b, 44);
            append_field(&mut b, "repo_root", &json_string_bytes(w.repo_root.as_str()));
            append_byte(&mut b, 125);
            b
        },
    };
    append_field(&mut r, "worktree", &worktree_bytes);
    append_byte(&mut r, 125);
    r
}

proof fn numbers_total(a: Seq<u32>, b: Seq<u32>)
    ensures
        numbers_precede(a, b) || numbers_precede(b, a) || a == b,
        !(numbers_precede(a, b) && numbers_precede(b, a)),
        !numbers_precede(a, a),
    decreases a.len(),
{
    if a.len() > 0 {
        numbers_total(a.skip(1), a.skip(1));
    }
    if a.len() > 0 && b.len() > 0 {
        numbers_total(a.skip(1), b.skip(1));
        if a[0] == b[0] && a.skip(1) == b.skip(1) {
            assert(a =~= seq![a[0]] + a.skip(1));
            assert(b =~= seq![b[0]] + b.skip(1));
        }
    } else if a.len() == 0 && b.len() == 0 {
        assert(a =~= b);
    }
}

proof fn numbers_transitive(a: Seq<u32>, b: Seq<u32>, c: Seq<u32>)
    requires
        numbers_precede(a, b),
        numbers_precede(b, c),
    ensures
        numbers_precede(a, c),
    decreases a.len(),
{
    if a.len() > 0 && a[0] == b[0] && b[0] == c[0] {
        numbers_transitive(a.skip(1), b.skip(1), c.skip(1));
    }
}

proof fn keys_total(a: Seq<Seq<u32>>, b: Seq<Seq<u32>>)
    ensures
        key_precedes(a, b) || key_precedes(b, a) || a == b,
        !(key_precedes(a, b) && key_precedes(b, a)),
        !key_precedes(a, a),
    decreases a.len(),
{
    if a.len() > 0 {
        keys_total(a.skip(1), a.skip(1));
    }
    if a.len() > 0 && b.len() > 0 {
        numbers_total(a[0], b[0]);
        keys_total(a.skip(1), b.skip(1));
        if a[0] == b[0] && a.skip(1) == b.skip(1) {
            assert(a =~= seq![a[0]] + a.skip(1));
            assert(b =~= seq![b[0]] + b.skip(1));
        }
    } else if a.len() == 0 && b.len() == 0 {
        assert(a =~= b);
    }
}

proof fn keys_transitive(a: Seq<Seq<u32>>, b: Seq<Seq<u32>>, c: Seq<Seq<u32>>)
    requires
        key_precedes(a, b),
        key_precedes(b, c),
    ensures
        key_precedes(a, c),
    decreases a.len(),
{
    if a.len() > 0 {
        if a[0] == b[0] && b[0] == c[0] {
            keys_transitive(a.skip(1), b.skip(1), c.skip(1));
        } else if a[0] != b[0] && b[0] != c[0] {
            numbers_transitive(a[0], b[0], c[0]);
            numbers_total(a[0], c[0]);
            if a[0] == c[0] {
                numbers_total(a[0], b[0]);
            }
        }
    }
}

proof fn placing_keeps_order(list: Seq<KeyedBytes>, item: KeyedBytes)
    requires
        in_order(list),
    ensures
        in_order(placed(list, item)),
        placed(list, item).to_multiset() == list.to_multiset().insert(item),
        placed(list, item).len() == list.len() + 1,
    decreases list.len(),
{
    broadcast use vstd::seq_lib::group_to_multiset_ensures;

    let r = placed(list, item);
    if list.len() > 0 && key_precedes(item.key, list.last().key) {
        let front = list.drop_last();
        assert(in_order(front));
        placing_keeps_order(front, item);
        let inner = placed(front, item);
        assert(r == inner.push(list.last()));
        assert(list == front.push(list.last()));
        assert(r.to_multiset() =~= list.to_multiset().insert(item));
        assert forall|i: int, j: int| 0 <= i < j < r.len() implies !key_precedes(
            (#[trigger] r[j]).key,
            (#[trigger] r[i]).key,
        ) by {
            if j == inner.len() {
                assert(inner.to_multiset().count(inner[i]) > 0) by {
                    assert(inner.contains(inner[i]));
                }
                if inner[i] == item {
                    keys_total(item.key, list.last().key);
                } else {
                    assert(front.to_multiset().count(inner[i]) > 0);
                    assert(front.contains(inner[i]));
                    let k = choose|k: int| 0 <= k < front.len() && front[k] == inner[i];
                    assert(list[k] == inner[i] && list[list.len() - 1] == list.last());
                }
            } else {
                assert(r[i] == inner[i] && r[j] == inner[j]);
            }
        }
    } else {
        assert(r == list.push(item));
        assert forall|i: int, j: int| 0 <= i < j < r.len() implies !key_precedes(
            (#[trigger] r[j]).key,
            (#[trigger] r[i]).key,
        ) by {
            if j == list.len() {
                let last = list.last();
                assert(list[list.len() - 1] == last);
                if key_precedes(item.key, list[i].key) {
                    keys_total(item.key, last.key);
                    keys_total(list[i].key, last.key);
                    if list[i].key != last.key {
                        assert(!key_precedes(list[list.len() - 1].key, list[i].key) || i
                            == list.len() - 1);
                        keys_transitive(item.key, list[i].key, last.key);
                    }
                }
            } else {
                assert(r[i] == list[i] && r[j] == list[j]);
            }
        }
    }
}

/// Sorting puts the items in order and neither loses nor adds one.
pub proof fn sorting_orders_the_items(items: Seq<KeyedBytes>)
    ensures
        in_order(sorted(items)),
        sorted(items).to_multiset() == items.to_multiset(),
    decreases items.len(),
{
    broadcast use vstd::seq_lib::group_to_multiset_ensures;

    if items.len() > 0 {
        sorting_orders_the_items(items.drop_last());
        placing_keeps_order(sorted(items.drop_last()), items.last());
        assert(items == items.drop_last().push(items.last()));
    } else {
        assert(items =~= Seq::empty());
    }
}

/// No key occurs twice.
pub open spec fn keys_distinct(items: Seq<KeyedBytes>) -> bool {
    forall|i: int, j: int|
        0 <= i < j < items.len() ==> (#[trigger] items[i]).key != (#[trigger] items[j]).key
}

spec fn item_leq(a: KeyedBytes, b: KeyedBytes) -> bool {
    a == b || key_precedes(a.key, b.key) || (a.key == b.key && numbers_precede(
        widened(a.bytes),
        widened(b.bytes),
    ))
}

proof fn widened_is_injective(a: Seq<u8>, b: Seq<u8>)
    ensures
        widened(a) == widened(b) ==> a == b,
{
    if widened(a) == widened(b) {
        assert(a.len() == widened(a).len() && b.len() == widened(b).len());
        assert forall|i: int| 0 <= i < a.len() implies a[i] == b[i] by {
            assert(widened(a)[i] == widened(b)[i]);
        }
        assert(a =~= b);
    }
}

proof fn item_order_is_total()
    ensures
        vstd::relations::total_ordering(|a: KeyedBytes, b: KeyedBytes| item_leq(a, b)),
{
    let leq = |a: KeyedBytes, b: KeyedBytes| item_leq(a, b);
    assert forall|x: KeyedBytes, y: KeyedBytes| #[trigger] leq(x, y) && #[trigger] leq(y, x) implies x
        == y by {
        keys_total(x.key, y.key);
        numbers_total(widened(x.bytes), widened(y.bytes));
    }
    assert forall|x: KeyedBytes, y: KeyedBytes| #[trigger] leq(x, y) || #[trigger] leq(y, x) by {
        keys_total(x.key, y.key);
        numbers_total(widened(x.bytes), widened(y.bytes));
        widened_is_injective(x.bytes, y.bytes);
    }
    assert forall|x: KeyedBytes, y: KeyedBytes, z: KeyedBytes| #[trigger]
        leq(x, y) && #[trigger] leq(y, z) implies leq(x, z) by {
        if key_precedes(x.key, y.key) && key_precedes(y.key, z.key) {
            keys_transitive(x.key, y.key, z.key);
        }
        if numbers_precede(widened(x.bytes), widened(y.bytes)) && numbers_precede(
            widened(y.bytes),
            widened(z.bytes),
        ) {
            numbers_transitive(widened(x.bytes), widened(y.bytes), widened(z.bytes));
        }
    }
}

proof fn distinct_order_is_item_order(items: Seq<KeyedBytes>)
    requires
        in_order(items),
        keys_distinct(items),
    ensures
        vstd::relations::sorted_by(items, |a: KeyedBytes, b: KeyedBytes| item_leq(a, b)),
{
    let leq = |a: KeyedBytes, b: KeyedBytes| item_leq(a, b);
    assert forall|i: int, j: int| 0 <= i < j < items.len() implies #[trigger] leq(
        items[i],
        items[j],
    ) by {
        keys_total(items[i].key, items[j].key);
        assert(items[i].key != items[j].key);
    }
}

proof fn distinct_keys_survive(a: Seq<KeyedBytes>, b: Seq<KeyedBytes>)
    requires
        keys_distinct(a),
        a.to_multiset() == b.to_multiset(),
    ensures
        keys_distinct(b),
{
    broadcast use vstd::seq_lib::group_to_multiset_ensures;

    assert forall|i: int, j: int| 0 <= i < j < b.len() implies (#[trigger] b[i]).key != (
    #[trigger] b[j]).key by {
        if b[i].key == b[j].key {
            assert(b.contains(b[i]) && b.contains(b[j]));
            assert(a.to_multiset().count(b[i]) > 0 && a.to_multiset().count(b[j]) > 0);
            assert(a.contains(b[i]) && a.contains(b[j]));
            let x = choose|x: int| 0 <= x < a.len() && a[x] == b[i];
            let y = choose|y: int| 0 <= y < a.len() && a[y] == b[j];
            if x < y {
                assert(a[x].key != a[y].key);
            } else if y < x {
                assert(a[y].key != a[x].key);
            } else {
                assert(b[i] == b[j]);
                assert(b.remove(i).contains(b[j])) by {
                    assert(b.remove(i)[j - 1] == b[j]);
                }
                assert(b.remove(i).to_multiset().count(b[j]) > 0);
                assert(b.to_multiset().count(b[i]) >= 2);
                let rest = a.remove(x);
                assert(rest.to_multiset().count(b[i]) >= 1);
                assert(rest.contains(b[i]));
                let z = choose|z: int| 0 <= z < rest.len() && rest[z] == b[i];
                let w = if z < x {
                    z
                } else {
                    z + 1
                };
                assert(a[w] == b[i]);
                if w < x {
                    assert(a[w].key != a[x].key);
                } else {
                    assert(a[x].key != a[w].key);
                }
            }
        }
    }
}

/// The order in which the entries of an object stand does not show in its
/// canonical bytes: two lists of the same pieces with distinct keys are sorted
/// to the same list.
pub proof fn entry_order_does_not_matter(a: Seq<KeyedBytes>, b: Seq<KeyedBytes>)
    requires
        a.to_multiset() == b.to_multiset(),
        keys_distinct(a),
    ensures
        sorted(a) == sorted(b),
{
    sorting_orders_the_items(a);
    sorting_orders_the_items(b);
    distinct_keys_survive(a, sorted(a));
    distinct_keys_survive(a, sorted(b));
    distinct_order_is_item_order(sorted(a));
    distinct_order_is_item_order(sorted(b));
    item_order_is_total();
    vstd::seq_lib::lemma_sorted_unique(
        sorted(a),
        sorted(b),
        |x: KeyedBytes, y: KeyedBytes| item_leq(x, y),
    );
}

/// Two objects whose entries are the same up to order have the same canonical
/// bytes.
pub proof fn equal_objects_have_equal_bytes(
    a: Vec<(String, JsonValue)>,
    b: Vec<(String, JsonValue)>,
)
    requires
        object_pieces(a, a@.len()).to_multiset() == object_pieces(b, b@.len()).to_multiset(),
        keys_distinct(object_pieces(a, a@.len())),
    ensures
        canonical(JsonValue::Object(a)) == canonical(JsonValue::Object(b)),
{
    entry_order_does_not_matter(object_pieces(a, a@.len()), object_pieces(b, b@.len()));
}

} // verus!
