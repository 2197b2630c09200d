//! Context propagation: writing a span's trace context into a request's
//! header block, and gathering the header fields of such a block into the
//! name-to-value carrier a context is read back from.

use vstd::prelude::*;
use crate::bytes::{append_bytes, copy_range};
use crate::framer::{
    fields_view,
    splice_offset,
    splice_point,
    HeaderField,
    HeaderFieldView,
    HEAD_TERMINATOR_LEN,
};

verus! {

/// The name of the header field that carries the trace context:
/// `uber-trace-id`.
pub open spec fn trace_header_name() -> Seq<u8> {
    seq![
        0x75u8, 0x62u8, 0x65u8, 0x72u8, 0x2du8, 0x74u8, 0x72u8, 0x61u8, 0x63u8, 0x65u8, 0x2du8,
        0x69u8, 0x64u8,
    ]
}

/// What stands between a header field's name and its value: a colon and a
/// space.
pub open spec fn name_value_separator() -> Seq<u8> {
    seq![0x3au8, 0x20u8]
}

/// The end of the trace-context line followed by the blank line that closes
/// the head: CR LF CR LF.
pub open spec fn line_and_head_end() -> Seq<u8> {
    seq![0x0du8, 0x0au8, 0x0du8, 0x0au8]
}

/// The one header line that carries `context`, with the blank line after it.
pub open spec fn trace_header_line(context: Seq<u8>) -> Seq<u8> {
    trace_header_name() + name_value_separator() + context + line_and_head_end()
}

/// The header lines of the head that ends at `body_start` in `payload`:
/// everything up to the splice point.
pub open spec fn header_lines(payload: Seq<u8>, body_start: nat) -> Seq<u8> {
    payload.subrange(0, splice_point(body_start))
}

/// The body of the message whose head ends at `body_start` in `payload`.
pub open spec fn body_bytes(payload: Seq<u8>, body_start: nat) -> Seq<u8> {
    payload.subrange(body_start as int, payload.len() as int)
}

/// The synthetic header block: the sender's own header lines, byte for byte,
/// then the trace-context line, then the blank line.
pub open spec fn synthetic_headers(payload: Seq<u8>, body_start: nat, context: Seq<u8>) -> Seq<u8> {
    header_lines(payload, body_start) + trace_header_line(context)
}

fn trace_header_prefix() -> (prefix: Vec<u8>)
    ensures
        prefix@ == trace_header_name() + name_value_separator(),
{
    let prefix: Vec<u8> = vec![
        0x75u8, 0x62u8, 0x65u8, 0x72u8, 0x2du8, 0x74u8, 0x72u8, 0x61u8, 0x63u8, 0x65u8, 0x2du8,
        0x69u8, 0x64u8, 0x3au8, 0x20u8,
    ];
    prefix
}

/// Builds the synthetic header block for a request whose head ends at
/// `body_start` in `payload`.
pub fn inject_context(payload: &[u8], body_start: usize, context: &[u8]) -> (block: Vec<u8>)
    requires
        HEAD_TERMINATOR_LEN <= body_start <= payload.len(),
    ensures
        block@ == synthetic_headers(payload@, body_start as nat, context@),
{
    let mut block = copy_range(payload, 0, splice_offset(body_start));
    let prefix = trace_header_prefix();
    append_bytes(&mut block, prefix.as_slice());
    append_bytes(&mut block, context);
    block.push(0x0du8);
    block.push(0x0au8);
    block.push(0x0du8);
    block.push(0x0au8);
    block
}

/// The name-to-value mapping a list of header fields stands for. Fields are
/// entered in order, so of two fields with one name the later one stays.
pub open spec fn carrier_map(fields: Seq<HeaderFieldView>) -> Map<Seq<char>, Seq<u8>>
    decreases fields.len(),
{
    if fields.len() == 0 {
        Map::empty()
    } else {
        carrier_map(fields.drop_last()).insert(fields.last().name, fields.last().value)
    }
}

/// Whether no name occurs twice in `fields`.
pub open spec fn distinct_names(fields: Seq<HeaderFieldView>) -> bool {
    forall|i: int, j: int|
        0 <= i < j < fields.len() ==> (#[trigger] fields[i]).name != (#[trigger] fields[j]).name
}

/// A carrier: header fields by name, each name at most once.
///
/// The fields stand in a list, in the order in which their names first came,
/// so that what the carrier holds can be stated exactly. The backend gets
/// them as the string-keyed map it asks for.
#[derive(Debug)]
pub struct Carrier {
    pub fields: Vec<HeaderField>,
}

impl View for Carrier {
    type V = Map<Seq<char>, Seq<u8>>;

    open spec fn view(&self) -> Map<Seq<char>, Seq<u8>> {
        carrier_map(fields_view(self.fields@))
    }
}

/// A name that occurs in `fields` is in the mapping, and a name in the
/// mapping occurs in `fields`.
pub proof fn lemma_carrier_domain(fields: Seq<HeaderFieldView>, name: Seq<char>)
    ensures
        carrier_map(fields).contains_key(name) <==> exists|i: int|
            0 <= i < fields.len() && (#[trigger] fields[i]).name == name,
    decreases fields.len(),
{
    if fields.len() > 0 {
        let rest = fields.drop_last();
        lemma_carrier_domain(rest, name);
        if exists|i: int| 0 <= i < fields.len() && (#[trigger] fields[i]).name == name {
            let i = choose|i: int| 0 <= i < fields.len() && (#[trigger] fields[i]).name == name;
            if i < rest.len() {
                assert(rest[i].name == name);
            }
        }
    }
}

/// In a list without repeated names, every field is what the mapping holds
/// under its name.
pub proof fn lemma_carrier_lookup(fields: Seq<HeaderFieldView>, i: int)
    requires
        distinct_names(fields),
        0 <= i < fields.len(),
    ensures
        carrier_map(fields).contains_key(fields[i].name),
        carrier_map(fields)[fields[i].name] == fields[i].value,
    decreases fields.len(),
{
    if i < fields.len() - 1 {
        lemma_carrier_lookup(fields.drop_last(), i);
    }
}

/// Replacing the value of one field, in a list without repeated names, is
/// entering that name with the new value.
proof fn lemma_carrier_update(fields: Seq<HeaderFieldView>, i: int, value: Seq<u8>)
    requires
        distinct_names(fields),
        0 <= i < fields.len(),
    ensures
        carrier_map(fields.update(i, HeaderFieldView { name: fields[i].name, value }))
            == carrier_map(fields).insert(fields[i].name, value),
    decreases fields.len(),
{
    let field = HeaderFieldView { name: fields[i].name, value };
    let updated = fields.update(i, field);
    let rest = fields.drop_last();
    if i == fields.len() - 1 {
        assert(updated.drop_last() =~= rest);
    } else {
        lemma_carrier_update(rest, i, value);
        assert(updated.drop_last() =~= rest.update(i, field));
    }
}

impl Carrier {
    /// Whether the carrier holds each name at most once.
    pub open spec fn wf(&self) -> bool {
        distinct_names(fields_view(self.fields@))
    }

    /// A carrier with no fields.
    pub fn new() -> (carrier: Carrier)
        ensures
            carrier.wf(),
            carrier@ == Map::<Seq<char>, Seq<u8>>::empty(),
    {
        Carrier { fields: Vec::new() }
    }

    /// Where `name` stands in the carrier, if it does.
    fn position(&self, name: &String) -> (at: Option<usize>)
        ensures
            match at {
                Some(i) => i < self.fields@.len() && self.fields@[i as int].name@ == name@,
                None => forall|i: int|
                    0 <= i < self.fields@.len() ==> (#[trigger] self.fields@[i]).name@ != name@,
            },
    {
        let mut i: usize = 0;
        while i < self.fields.len()
            invariant
                i <= self.fields@.len(),
                forall|j: int| 0 <= j < i ==> (#[trigger] self.fields@[j]).name@ != name@,
            decreases self.fields@.len() - i,
        {
            if self.fields[i].name == *name {
                return Some(i);
            }
            i = i + 1;
        }
        None
    }

    /// Enters `value` under `name`, in place of the value the name had.
    pub fn insert(&mut self, name: String, value: Vec<u8>)
        requires
            old(self).wf(),
        ensures
            final(self).wf(),
            final(self)@ == old(self)@.insert(name@, value@),
    {
        let ghost before = fields_view(self.fields@);
        let ghost field = HeaderFieldView { name: name@, value: value@ };
        match self.position(&name) {
            Some(i) => {
                proof {
                    lemma_carrier_update(before, i as int, value@);
                }
                self.fields.set(i, HeaderField { name, value });
                assert(fields_view(self.fields@) =~= before.update(i as int, field));
            },
            None => {
                self.fields.push(HeaderField { name, value });
                let ghost after = fields_view(self.fields@);
                assert(after.drop_last() =~= before);
                assert forall|a: int, b: int| 0 <= a < b < after.len() implies (#[trigger] after[a]).name
                    != (#[trigger] after[b]).name by {
                    if b < before.len() {
                        assert(before[a].name != before[b].name);
                    }
                }
            },
        }
    }

    /// The value held under `name`, if the carrier has that name.
    pub fn get(&self, name: &String) -> (value: Option<&Vec<u8>>)
        requires
            self.wf(),
        ensures
            match value {
                Some(v) => self@.contains_key(name@) && self@[name@] == v@,
                None => !self@.contains_key(name@),
            },
    {
        proof {
            lemma_carrier_domain(fields_view(self.fields@), name@);
        }
        match self.position(name) {
            Some(i) => {
                proof {
                    lemma_carrier_lookup(fields_view(self.fields@), i as int);
                }
                Some(&self.fields[i].value)
            },
            None => None,
        }
    }
}

/// Gathers the header fields of a head into a carrier, in order: of two
/// fields with one name, the later one's value stays.
pub fn build_carrier(headers: &Vec<HeaderField>) -> (carrier: Carrier)
    ensures
        carrier.wf(),
        carrier@ == carrier_map(fields_view(headers@)),
{
    let mut carrier = Carrier::new();
    let mut i: usize = 0;
    while i < headers.len()
        invariant
            i <= headers@.len(),
            carrier.wf(),
            carrier@ == carrier_map(fields_view(headers@).take(i as int)),
        decreases headers@.len() - i,
    {
        let name = headers[i].name.clone();
        let value = copy_range(headers[i].value.as_slice(), 0, headers[i].value.len());
        assert(value@ =~= headers@[i as int].value@);
        carrier.insert(name, value);
        proof {
            let all = fields_view(headers@);
            assert(all.take(i + 1).drop_last() =~= all.take(i as int));
        }
        i = i + 1;
    }
    assert(fields_view(headers@).take(headers@.len() as int) =~= fields_view(headers@));
    carrier
}

/// The synthetic header block is the sender's header lines, byte for byte,
/// with exactly one line and the blank line after them.
pub proof fn law_splice_adds_one_line(payload: Seq<u8>, body_start: nat, context: Seq<u8>)
    requires
        HEAD_TERMINATOR_LEN <= body_start <= payload.len(),
    ensures
        synthetic_headers(payload, body_start, context).len() == splice_point(body_start)
            + trace_header_line(context).len(),
        synthetic_headers(payload, body_start, context).take(splice_point(body_start))
            == payload.take(splice_point(body_start)),
        synthetic_headers(payload, body_start, context).skip(splice_point(body_start))
            == trace_header_line(context),
        trace_header_line(context).len() == context.len() + 19,
        header_lines(payload, body_start) + payload.subrange(
            splice_point(body_start),
            body_start as int,
        ) + body_bytes(payload, body_start) == payload,
{
}

/// A field entered last is what the mapping holds under its name, whatever
/// stood under that name before.
pub proof fn law_last_write_wins(fields: Seq<HeaderFieldView>, field: HeaderFieldView)
    ensures
        carrier_map(fields.push(field)) == carrier_map(fields).insert(field.name, field.value),
        carrier_map(fields.push(field)).contains_key(field.name),
        carrier_map(fields.push(field))[field.name] == field.value,
{
    assert(fields.push(field).drop_last() =~= fields);
}

/// Gathering a header list that ends with `field` recovers that field once
/// and only once: a carrier for the list holds exactly one field of that
/// name, and it is `field`.
pub proof fn law_decoding_recovers_one_field(
    headers: Seq<HeaderFieldView>,
    field: HeaderFieldView,
    carried: Seq<HeaderFieldView>,
) -> (at: int)
    requires
        distinct_names(carried),
        carrier_map(carried) == carrier_map(headers.push(field)),
    ensures
        0 <= at < carried.len(),
        carried[at] == field,
        forall|j: int| 0 <= j < carried.len() && (#[trigger] carried[j]).name == field.name ==> j
            == at,
{
    law_last_write_wins(headers, field);
    lemma_carrier_domain(carried, field.name);
    let at = choose|i: int| 0 <= i < carried.len() && (#[trigger] carried[i]).name == field.name;
    lemma_carrier_lookup(carried, at);
    at
}

} // verus!
