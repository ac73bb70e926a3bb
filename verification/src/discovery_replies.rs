//! The entities a discovery reply reports, built from what the protocol
//! parsers read out of it: one per LLMNR answer for the queried name, the
//! gateway a NAT-PMP reply names, the SQL Server browser and its instances,
//! the WS-Discovery matches, the TFTP server, the QUIC versions, and the
//! rpcbind-derived NFS endpoint.
use vstd::prelude::*;
use vstd::utf8::encode_utf8;

use crate::discovery::{bounded_row, bounds_applied, field_text, NativeDiscoveryMetadataField, NativeDiscoveryRow};
use crate::discovery_rows::{address_views, copy_bytes, field_view, field_views, FieldView};
use crate::text::{bytes_of, decimal, decimal_string, hex_char, hex_digit_text, owned};

verus! {

broadcast use vstd::string::group_string_axioms;

/// What every entity of one reply shares: the operation, its protocol name
/// and evidence kind, the responder's address text and port, the interface
/// the reply arrived on, and the hop limit it arrived with.
pub struct ReplyContext {
    pub operation_id: u32,
    pub protocol: String,
    pub evidence: String,
    pub responder: String,
    pub responder_port: u16,
    pub interface_index: Option<u32>,
    pub hop_limit: Option<u32>,
}

/// The content of a text metadata field.
pub open spec fn text_field(key: Seq<char>, value: Seq<char>) -> FieldView {
    (key, encode_utf8(value), Some(value))
}

/// Whether `raw` is the entity of a reply before its bounds apply: the
/// reply's operation, protocol, evidence, responder and interface, the
/// given identity, kind and metadata (followed by the received hop limit,
/// where known), complete, and listing the responder's address.
pub open spec fn reply_base(
    ctx: ReplyContext,
    identity: Seq<u8>,
    kind: Seq<char>,
    metadata: Seq<FieldView>,
    raw: NativeDiscoveryRow,
) -> bool {
    &&& raw.entity_id@ == Seq::<char>::empty()
    &&& raw.parent_entity_id is None
    &&& raw.derivation_kind is None
    &&& raw.operation_id == ctx.operation_id
    &&& raw.protocol@ == ctx.protocol@
    &&& raw.kind@ == kind
    &&& raw.evidence@ == ctx.evidence@
    &&& raw.outcome@ == "complete"@
    &&& raw.responder@ == ctx.responder@
    &&& raw.responder_port == ctx.responder_port as u32
    &&& raw.interface_index == ctx.interface_index
    &&& raw.identity@ == identity
    &&& address_views(raw.addresses@) == seq![ctx.responder@]
    &&& field_views(raw.metadata@) == match ctx.hop_limit {
        Some(h) => metadata.push(text_field("receivedHopLimit"@, decimal(h as nat))),
        None => metadata,
    }
    &&& !raw.truncated
}

/// Whether `r` is the bounded entity of a reply with the given identity,
/// kind and metadata.
pub open spec fn reply_entity(
    ctx: ReplyContext,
    identity: Seq<u8>,
    kind: Seq<char>,
    metadata: Seq<FieldView>,
    r: Result<NativeDiscoveryRow, ()>,
) -> bool {
    exists|raw: NativeDiscoveryRow| reply_base(ctx, identity, kind, metadata, raw) && bounds_applied(raw, r)
}

/// Whether an identity fits an entity's bounds: 1 through 1024 bytes.
pub open spec fn identity_fits(identity: Seq<u8>) -> bool {
    1 <= identity.len() <= 1024
}

/// Builds the entity of a reply with the given identity, kind and metadata,
/// and applies the bounds of an entity to it.
pub fn reply_row(
    ctx: &ReplyContext,
    identity: Vec<u8>,
    kind: &str,
    metadata: Vec<NativeDiscoveryMetadataField>,
) -> (r: Result<NativeDiscoveryRow, ()>)
    ensures
        reply_entity(*ctx, identity@, kind@, field_views(metadata@), r),
        r is Ok == identity_fits(identity@),
{
    let ghost given = field_views(metadata@);
    let mut metadata = metadata;
    match ctx.hop_limit {
        Some(h) => {
            let value = decimal_string(h as u64);
            let field = field_text("receivedHopLimit", value.as_str());
            let ghost prior = metadata@;
            metadata.push(field);
            proof {
                assert(field_views(metadata@) =~= field_views(prior).push(field_view(field)));
            }
        },
        None => {},
    }
    let mut addresses: Vec<String> = Vec::new();
    addresses.push(ctx.responder.clone());
    proof {
        assert(address_views(addresses@) =~= seq![ctx.responder@]);
    }
    let raw = NativeDiscoveryRow {
        entity_id: String::new(),
        parent_entity_id: None,
        derivation_kind: None,
        operation_id: ctx.operation_id,
        protocol: ctx.protocol.clone(),
        kind: owned(kind),
        evidence: ctx.evidence.clone(),
        outcome: owned("complete"),
        responder: ctx.responder.clone(),
        responder_port: ctx.responder_port as u32,
        interface_index: ctx.interface_index,
        identity,
        addresses,
        metadata,
        truncated: false,
    };
    proof {
        assert(reply_base(*ctx, raw.identity@, kind@, given, raw));
    }
    bounded_row(raw)
}

/// A text with its trailing dots removed.
pub open spec fn without_trailing_dots(s: Seq<char>) -> Seq<char>
    decreases s.len(),
{
    if s.len() > 0 && s.last() == '.' {
        without_trailing_dots(s.drop_last())
    } else {
        s
    }
}

/// A character with an ASCII capital letter lowered.
pub open spec fn ascii_lower(c: char) -> char {
    if 'A' <= c <= 'Z' {
        (((c as u8) + 32) as u8) as char
    } else {
        c
    }
}

/// Whether two texts are equal but for the case of ASCII letters.
pub open spec fn equal_ignoring_ascii_case(a: Seq<char>, b: Seq<char>) -> bool {
    a.len() == b.len() && forall|i: int| 0 <= i < a.len() ==> ascii_lower(#[trigger] a[i]) == ascii_lower(b[i])
}

fn lower_char(c: char) -> (r: char)
    ensures
        r == ascii_lower(c),
{
    if 'A' <= c && c <= 'Z' {
        let code: u8 = c as u8 + 32;
        code as char
    } else {
        c
    }
}

/// The number of characters a text keeps once its trailing dots are gone.
fn trimmed_length(s: &str) -> (r: usize)
    ensures
        r as nat <= s@.len(),
        without_trailing_dots(s@) == s@.take(r as int),
{
    let mut n = s.unicode_len();
    proof {
        assert(s@.take(s@.len() as int) =~= s@);
    }
    while n > 0 && s.get_char(n - 1) == '.'
        invariant
            n as nat <= s@.len(),
            without_trailing_dots(s@) == without_trailing_dots(s@.take(n as int)),
        decreases n,
    {
        proof {
            assert(s@.take(n as int).last() == s@[n - 1]);
            assert(s@.take(n as int).drop_last() =~= s@.take(n - 1));
        }
        n = n - 1;
    }
    proof {
        if n > 0 {
            assert(s@.take(n as int).last() == s@[n - 1]);
        }
    }
    n
}

/// Reports whether a name equals the queried one, trailing dots aside and
/// ignoring the case of ASCII letters.
pub fn names_match(name: &str, query_name: &str) -> (r: bool)
    ensures
        r == equal_ignoring_ascii_case(without_trailing_dots(name@), without_trailing_dots(query_name@)),
{
    let a = trimmed_length(name);
    let b = trimmed_length(query_name);
    if a != b {
        return false;
    }
    let mut i: usize = 0;
    while i < a
        invariant
            i <= a,
            a == b,
            a as nat <= name@.len(),
            b as nat <= query_name@.len(),
            without_trailing_dots(name@) == name@.take(a as int),
            without_trailing_dots(query_name@) == query_name@.take(b as int),
            forall|k: int| 0 <= k < i ==> ascii_lower(#[trigger] name@[k]) == ascii_lower(query_name@[k]),
        decreases a - i,
    {
        let x = lower_char(name.get_char(i));
        let y = lower_char(query_name.get_char(i));
        if x != y {
            proof {
                assert(name@.take(a as int)[i as int] == name@[i as int]);
                assert(query_name@.take(b as int)[i as int] == query_name@[i as int]);
                assert(ascii_lower(without_trailing_dots(name@)[i as int]) != ascii_lower(
                    without_trailing_dots(query_name@)[i as int],
                ));
            }
            return false;
        }
        i = i + 1;
    }
    proof {
        assert forall|k: int| 0 <= k < a implies ascii_lower(#[trigger] name@.take(a as int)[k]) == ascii_lower(
            query_name@.take(b as int)[k],
        ) by {
            assert(name@.take(a as int)[k] == name@[k]);
            assert(query_name@.take(b as int)[k] == query_name@[k]);
        }
    }
    true
}

/// The address an LLMNR answer carries, as text.
pub enum AnswerAddress {
    V4(String),
    V6(String),
    Other,
}

/// One answer record of an LLMNR reply.
pub struct LlmnrAnswer {
    pub name_wire: Vec<u8>,
    pub name_text: Option<String>,
    pub record_class: u16,
    pub record_type: u16,
    pub ttl: u32,
    pub address: AnswerAddress,
}

/// The address an answer contributes to a query of a type: an IPv4 address
/// to an A query, an IPv6 address to an AAAA query.
pub open spec fn answer_address(answer: LlmnrAnswer, query_type: u16) -> Option<Seq<char>> {
    match answer.address {
        AnswerAddress::V4(text) => if query_type == 1 {
            Some(text@)
        } else {
            None
        },
        AnswerAddress::V6(text) => if query_type == 28 {
            Some(text@)
        } else {
            None
        },
        AnswerAddress::Other => None,
    }
}

/// Whether an LLMNR answer answers the query: class IN, the queried type,
/// the queried name, and an address of the queried type.
pub open spec fn answer_applies(answer: LlmnrAnswer, query_name: Seq<char>, query_type: u16) -> bool {
    &&& answer.record_class == 1
    &&& answer.record_type == query_type
    &&& answer.name_text matches Some(text) && equal_ignoring_ascii_case(
        without_trailing_dots(text@),
        without_trailing_dots(query_name),
    )
    &&& answer_address(answer, query_type) is Some
}

/// The spelling of a flag.
pub open spec fn flag_text(flag: bool) -> Seq<char> {
    if flag {
        "true"@
    } else {
        "false"@
    }
}

/// The metadata of an LLMNR name entity.
pub open spec fn llmnr_fields(address: Seq<char>, conflict: bool, tentative: bool, ttl: u32) -> Seq<
    FieldView,
> {
    seq![
        text_field("address"@, address),
        text_field("conflict"@, flag_text(conflict)),
        text_field("tentative"@, flag_text(tentative)),
        text_field("ttl"@, decimal(ttl as nat)),
    ]
}

/// Whether `row` is the entity of an applicable LLMNR answer: a bounded
/// name entity for the answer's name, whose only address is the answer's.
pub open spec fn llmnr_entity(
    ctx: ReplyContext,
    answer: LlmnrAnswer,
    query_type: u16,
    conflict: bool,
    tentative: bool,
    row: NativeDiscoveryRow,
) -> bool {
    let address = answer_address(answer, query_type)->Some_0;
    exists|bounded: NativeDiscoveryRow|
        {
            &&& reply_entity(
                ctx,
                answer.name_wire@,
                "name"@,
                llmnr_fields(address, conflict, tentative, answer.ttl),
                Ok(bounded),
            )
            &&& row == (NativeDiscoveryRow { addresses: row.addresses, ..bounded })
            &&& address_views(row.addresses@) == seq![address]
        }
}

/// The answers of an LLMNR reply that answer the query, in order.
pub open spec fn applicable_answers(answers: Seq<LlmnrAnswer>, query_name: Seq<char>, query_type: u16) -> Seq<
    LlmnrAnswer,
>
    decreases answers.len(),
{
    if answers.len() == 0 {
        Seq::empty()
    } else {
        let rest = applicable_answers(answers.drop_last(), query_name, query_type);
        if answer_applies(answers.last(), query_name, query_type) {
            rest.push(answers.last())
        } else {
            rest
        }
    }
}

fn flag_str(flag: bool) -> (r: &'static str)
    ensures
        r@ == flag_text(flag),
{
    if flag {
        "true"
    } else {
        "false"
    }
}

fn answer_applies_exec(answer: &LlmnrAnswer, query_name: &String, query_type: u16) -> (r: Option<String>)
    ensures
        match r {
            Some(address) => answer_applies(*answer, query_name@, query_type) && answer_address(
                *answer,
                query_type,
            ) == Some(address@),
            None => !answer_applies(*answer, query_name@, query_type),
        },
{
    if answer.record_class != 1 || answer.record_type != query_type {
        return None;
    }
    let named = match &answer.name_text {
        Some(text) => names_match(text.as_str(), query_name.as_str()),
        None => false,
    };
    if !named {
        return None;
    }
    match &answer.address {
        AnswerAddress::V4(text) => if query_type == 1 {
            Some(text.clone())
        } else {
            None
        },
        AnswerAddress::V6(text) => if query_type == 28 {
            Some(text.clone())
        } else {
            None
        },
        AnswerAddress::Other => None,
    }
}

/// The entities of an LLMNR reply: one name entity per answer for the
/// queried name and type, in order; the reply is refused where no answer
/// applies or an entity breaks its bounds.
pub fn llmnr_rows(
    ctx: &ReplyContext,
    answers: &Vec<LlmnrAnswer>,
    query_name: &String,
    query_type: u16,
    conflict: bool,
    tentative: bool,
) -> (r: Result<Vec<NativeDiscoveryRow>, ()>)
    ensures
        match r {
            Ok(rows) => {
                let applicable = applicable_answers(answers@, query_name@, query_type);
                &&& rows@.len() == applicable.len() > 0
                &&& forall|i: int|
                    0 <= i < rows@.len() ==> llmnr_entity(
                        *ctx,
                        #[trigger] applicable[i],
                        query_type,
                        conflict,
                        tentative,
                        rows@[i],
                    )
            },
            Err(_) => applicable_answers(answers@, query_name@, query_type).len() == 0 || exists|
                i: int,
            |
                0 <= i < applicable_answers(answers@, query_name@, query_type).len()
                    && !identity_fits(
                    (#[trigger] applicable_answers(answers@, query_name@, query_type)[i]).name_wire@,
                ),
        },
{
    let mut rows: Vec<NativeDiscoveryRow> = Vec::new();
    let mut i: usize = 0;
    while i < answers.len()
        invariant
            i <= answers@.len(),
            rows@.len() == applicable_answers(answers@.take(i as int), query_name@, query_type).len(),
            forall|k: int|
                0 <= k < rows@.len() ==> llmnr_entity(
                    *ctx,
                    #[trigger] applicable_answers(answers@.take(i as int), query_name@, query_type)[k],
                    query_type,
                    conflict,
                    tentative,
                    rows@[k],
                ),
        decreases answers@.len() - i,
    {
        let answer = &answers[i];
        let ghost before = applicable_answers(answers@.take(i as int), query_name@, query_type);
        proof {
            assert(answers@.take(i + 1).drop_last() =~= answers@.take(i as int));
            assert(answers@.take(i + 1).last() == *answer);
        }
        match answer_applies_exec(answer, query_name, query_type) {
            None => {},
            Some(address) => {
                let mut metadata: Vec<NativeDiscoveryMetadataField> = Vec::new();
                metadata.push(field_text("address", address.as_str()));
                metadata.push(field_text("conflict", flag_str(conflict)));
                metadata.push(field_text("tentative", flag_str(tentative)));
                let ttl = decimal_string(answer.ttl as u64);
                metadata.push(field_text("ttl", ttl.as_str()));
                proof {
                    assert(field_views(metadata@) =~= llmnr_fields(address@, conflict, tentative, answer.ttl));
                }
                let identity = copy_bytes(&answer.name_wire);
                let built = reply_row(ctx, identity, "name", metadata);
                let ghost outcome = built;
                match built {
                    Ok(mut row) => {
                        let ghost bounded = row;
                        let mut addresses: Vec<String> = Vec::new();
                        addresses.push(address);
                        row.addresses = addresses;
                        proof {
                            assert(address_views(row.addresses@) =~= seq![address@]);
                            assert(row == (NativeDiscoveryRow { addresses: row.addresses, ..bounded }));
                            assert(answer_address(*answer, query_type)->Some_0 == address@);
                            assert(reply_entity(
                                *ctx,
                                answer.name_wire@,
                                "name"@,
                                llmnr_fields(address@, conflict, tentative, answer.ttl),
                                Ok(bounded),
                            ));
                            assert(llmnr_entity(*ctx, *answer, query_type, conflict, tentative, row));
                            let after = applicable_answers(answers@.take(i + 1), query_name@, query_type);
                            assert(after == before.push(*answer));
                        }
                        rows.push(row);
                    },
                    Err(_) => {
                        proof {
                            assert(outcome is Err);
                            assert(!identity_fits(answer.name_wire@));
                            let all = applicable_answers(answers@, query_name@, query_type);
                            let after = applicable_answers(answers@.take(i + 1), query_name@, query_type);
                            assert(after == before.push(*answer));
                            lemma_applicable_prefix(answers@, query_name@, query_type, i + 1);
                            let k = before.len() as int;
                            assert(after[k] == *answer);
                            assert(all[k] == *answer);
                        }
                        return Err(());
                    },
                }
            },
        }
        i = i + 1;
    }
    proof {
        assert(answers@.take(i as int) =~= answers@);
    }
    if rows.len() == 0 {
        return Err(());
    }
    Ok(rows)
}

proof fn lemma_applicable_prefix(answers: Seq<LlmnrAnswer>, query_name: Seq<char>, query_type: u16, n: int)
    requires
        0 <= n <= answers.len(),
    ensures
        applicable_answers(answers.take(n), query_name, query_type).len() <= applicable_answers(
            answers,
            query_name,
            query_type,
        ).len(),
        forall|k: int|
            0 <= k < applicable_answers(answers.take(n), query_name, query_type).len() ==> #[trigger] applicable_answers(
                answers.take(n),
                query_name,
                query_type,
            )[k] == applicable_answers(answers, query_name, query_type)[k],
    decreases answers.len() - n,
{
    if n < answers.len() {
        lemma_applicable_prefix(answers, query_name, query_type, n + 1);
        let longer = answers.take(n + 1);
        assert(longer.drop_last() =~= answers.take(n));
        let shorter = applicable_answers(answers.take(n), query_name, query_type);
        let next = applicable_answers(longer, query_name, query_type);
        assert(next == if answer_applies(longer.last(), query_name, query_type) {
            shorter.push(longer.last())
        } else {
            shorter
        });
        assert forall|k: int| 0 <= k < shorter.len() implies #[trigger] shorter[k] == applicable_answers(
            answers,
            query_name,
            query_type,
        )[k] by {
            assert(shorter[k] == next[k]);
        }
    } else {
        assert(answers.take(n) =~= answers);
    }
}

/// The UTF-8 bytes of a text.
pub open spec fn text_identity(text: Seq<char>) -> Seq<u8> {
    encode_utf8(text)
}

/// The entity of a NAT-PMP reply: the gateway itself, with the external
/// address it reports, its epoch and its result code.
pub fn nat_pmp_row(ctx: &ReplyContext, external_address: &String, epoch_seconds: u32, result_code: u16) -> (r:
    Result<NativeDiscoveryRow, ()>)
    ensures
        reply_entity(
            *ctx,
            text_identity(ctx.responder@),
            "gateway"@,
            seq![
                text_field("externalAddress"@, external_address@),
                text_field("epochSeconds"@, decimal(epoch_seconds as nat)),
                text_field("resultCode"@, decimal(result_code as nat)),
            ],
            r,
        ),
        r is Ok == identity_fits(text_identity(ctx.responder@)),
{
    let mut metadata: Vec<NativeDiscoveryMetadataField> = Vec::new();
    metadata.push(field_text("externalAddress", external_address.as_str()));
    let epoch = decimal_string(epoch_seconds as u64);
    metadata.push(field_text("epochSeconds", epoch.as_str()));
    let code = decimal_string(result_code as u64);
    metadata.push(field_text("resultCode", code.as_str()));
    proof {
        assert(field_views(metadata@) =~= seq![
            text_field("externalAddress"@, external_address@),
            text_field("epochSeconds"@, decimal(epoch_seconds as nat)),
            text_field("resultCode"@, decimal(result_code as nat)),
        ]);
    }
    reply_row(ctx, bytes_of(ctx.responder.as_str()), "gateway", metadata)
}

/// What a TFTP server answered a discovery read request with.
pub enum TftpReply {
    Error { code: u16, message: String },
    Data { block: u16, payload_bytes: usize },
    OptionAcknowledgement(Vec<(String, String)>),
}

/// The text fields of key and value pairs, in order.
pub open spec fn pair_fields(pairs: Seq<(String, String)>) -> Seq<FieldView> {
    pairs.map_values(|p: (String, String)| text_field(p.0@, p.1@))
}

/// The metadata of a TFTP server entity.
pub open spec fn tftp_fields(reply: TftpReply) -> Seq<FieldView> {
    match reply {
        TftpReply::Error { code, message } => seq![
            text_field("response"@, "error"@),
            text_field("code"@, decimal(code as nat)),
            text_field("message"@, message@),
        ],
        TftpReply::Data { block, payload_bytes } => seq![
            text_field("response"@, "data"@),
            text_field("block"@, decimal(block as nat)),
            text_field("payloadBytes"@, decimal(payload_bytes as nat)),
        ],
        TftpReply::OptionAcknowledgement(options) => seq![text_field("response"@, "oack"@)]
            + pair_fields(options@),
    }
}

/// The identity of a server by address and port: `address:port`.
pub open spec fn endpoint_text(address: Seq<char>, port: u16) -> Seq<char> {
    address + ":"@ + decimal(port as nat)
}

pub fn endpoint_string(address: &String, port: u16) -> (r: String)
    ensures
        r@ == endpoint_text(address@, port),
{
    let mut text = String::from_str(address.as_str());
    text.append(":");
    let digits = decimal_string(port as u64);
    text.append(digits.as_str());
    text
}

fn push_pairs(metadata: &mut Vec<NativeDiscoveryMetadataField>, pairs: &Vec<(String, String)>)
    ensures
        field_views(final(metadata)@) == field_views(old(metadata)@) + pair_fields(pairs@),
{
    let ghost start = field_views(metadata@);
    let mut i: usize = 0;
    while i < pairs.len()
        invariant
            i <= pairs@.len(),
            field_views(metadata@) == start + pair_fields(pairs@.take(i as int)),
        decreases pairs@.len() - i,
    {
        let ghost prior = metadata@;
        let field = field_text(pairs[i].0.as_str(), pairs[i].1.as_str());
        metadata.push(field);
        proof {
            assert(pair_fields(pairs@.take(i + 1)) =~= pair_fields(pairs@.take(i as int)).push(
                field_view(field),
            ));
            assert(field_views(metadata@) =~= field_views(prior).push(field_view(field)));
        }
        i = i + 1;
    }
    proof {
        assert(pairs@.take(i as int) =~= pairs@);
    }
}

/// The entity of a TFTP reply: the server at the address and port it
/// answered from, with what it answered.
pub fn tftp_row(ctx: &ReplyContext, reply: &TftpReply) -> (r: Result<NativeDiscoveryRow, ()>)
    ensures
        reply_entity(
            *ctx,
            text_identity(endpoint_text(ctx.responder@, ctx.responder_port)),
            "service"@,
            tftp_fields(*reply),
            r,
        ),
        r is Ok == identity_fits(text_identity(endpoint_text(ctx.responder@, ctx.responder_port))),
{
    let mut metadata: Vec<NativeDiscoveryMetadataField> = Vec::new();
    match reply {
        TftpReply::Error { code, message } => {
            metadata.push(field_text("response", "error"));
            let digits = decimal_string(*code as u64);
            metadata.push(field_text("code", digits.as_str()));
            metadata.push(field_text("message", message.as_str()));
        },
        TftpReply::Data { block, payload_bytes } => {
            metadata.push(field_text("response", "data"));
            let digits = decimal_string(*block as u64);
            metadata.push(field_text("block", digits.as_str()));
            let size = decimal_string(*payload_bytes as u64);
            metadata.push(field_text("payloadBytes", size.as_str()));
        },
        TftpReply::OptionAcknowledgement(options) => {
            metadata.push(field_text("response", "oack"));
            push_pairs(&mut metadata, options);
        },
    }
    proof {
        assert(field_views(metadata@) =~= tftp_fields(*reply));
    }
    let identity = endpoint_string(&ctx.responder, ctx.responder_port);
    reply_row(ctx, bytes_of(identity.as_str()), "service", metadata)
}

/// The last `n` lowercase hexadecimal digits of a value, most significant
/// first.
pub open spec fn hex_digits(value: nat, n: nat) -> Seq<char>
    decreases n,
{
    if n == 0 {
        Seq::empty()
    } else {
        hex_digits(value / 16, (n - 1) as nat).push(hex_char(value % 16))
    }
}

/// A QUIC version as `0x` and eight lowercase hexadecimal digits.
pub open spec fn version_text(version: u32) -> Seq<char> {
    "0x"@ + hex_digits(version as nat, 8)
}

fn hex_digits_string(value: u32, n: u32) -> (r: String)
    ensures
        r@ == hex_digits(value as nat, n as nat),
    decreases n,
{
    if n == 0 {
        String::new()
    } else {
        let mut text = hex_digits_string(value / 16, n - 1);
        text.append(hex_digit_text((value % 16) as u16));
        text
    }
}

/// The entity of a QUIC version negotiation: the server, with each version
/// it offers.
pub fn quic_row(ctx: &ReplyContext, versions: &Vec<u32>) -> (r: Result<NativeDiscoveryRow, ()>)
    ensures
        reply_entity(
            *ctx,
            text_identity(ctx.responder@),
            "service"@,
            versions@.map_values(|v: u32| text_field("version"@, version_text(v))),
            r,
        ),
        r is Ok == identity_fits(text_identity(ctx.responder@)),
{
    let mut metadata: Vec<NativeDiscoveryMetadataField> = Vec::new();
    let mut i: usize = 0;
    while i < versions.len()
        invariant
            i <= versions@.len(),
            field_views(metadata@) == versions@.take(i as int).map_values(
                |v: u32| text_field("version"@, version_text(v)),
            ),
        decreases versions@.len() - i,
    {
        let ghost prior = metadata@;
        let mut text = String::from_str("0x");
        let digits = hex_digits_string(versions[i], 8);
        text.append(digits.as_str());
        let field = field_text("version", text.as_str());
        metadata.push(field);
        proof {
            assert(versions@.take(i + 1).map_values(|v: u32| text_field("version"@, version_text(v)))
                =~= versions@.take(i as int).map_values(
                |v: u32| text_field("version"@, version_text(v)),
            ).push(field_view(field)));
            assert(field_views(metadata@) =~= field_views(prior).push(field_view(field)));
        }
        i = i + 1;
    }
    proof {
        assert(versions@.take(i as int) =~= versions@);
    }
    reply_row(ctx, bytes_of(ctx.responder.as_str()), "service", metadata)
}

/// The identity of an rpcbind-derived NFS endpoint.
pub open spec fn nfs_identity(responder: Seq<char>, port: u16) -> Seq<char> {
    "nfs3://"@ + endpoint_text(responder, port)
}

/// The metadata of the rpcbind entity that names an NFS port.
pub open spec fn rpcbind_fields(port: u16) -> Seq<FieldView> {
    seq![
        text_field("rpcProgram"@, "100003"@),
        text_field("rpcVersion"@, "3"@),
        text_field("derivedPort"@, decimal(port as nat)),
    ]
}

/// The entity of an rpcbind reply that names the NFS endpoint at `address`
/// and `port` (the caller has checked both): the endpoint, by
/// `address:port`.
pub fn rpcbind_row(ctx: &ReplyContext, address: &String, port: u16) -> (r: Result<NativeDiscoveryRow, ()>)
    ensures
        reply_entity(
            *ctx,
            text_identity(endpoint_text(address@, port)),
            "service"@,
            rpcbind_fields(port),
            r,
        ),
        r is Ok == identity_fits(text_identity(endpoint_text(address@, port))),
{
    let mut metadata: Vec<NativeDiscoveryMetadataField> = Vec::new();
    metadata.push(field_text("rpcProgram", "100003"));
    metadata.push(field_text("rpcVersion", "3"));
    let digits = decimal_string(port as u64);
    metadata.push(field_text("derivedPort", digits.as_str()));
    proof {
        assert(field_views(metadata@) =~= rpcbind_fields(port));
    }
    let identity = endpoint_string(address, port);
    reply_row(ctx, bytes_of(identity.as_str()), "service", metadata)
}

/// The metadata of an NFS endpoint entity, with what the NFS probe's
/// parser read.
pub open spec fn nfs_fields(catalogue_metadata: Seq<u8>) -> Seq<FieldView> {
    seq![
        text_field("rpcProgram"@, "100003"@),
        text_field("rpcVersion"@, "3"@),
        ("catalogueMetadata"@, catalogue_metadata, None),
    ]
}

/// Whether `row` is the NFS endpoint entity derived from the rpcbind entity
/// with identity `parent`: the bounded entity, naming its parent and how it
/// was derived.
pub open spec fn nfs_entity(
    ctx: ReplyContext,
    port: u16,
    catalogue_metadata: Seq<u8>,
    parent: Seq<char>,
    r: Result<NativeDiscoveryRow, ()>,
) -> bool {
    match r {
        Err(_) => !identity_fits(text_identity(nfs_identity(ctx.responder@, port))),
        Ok(row) => exists|bounded: NativeDiscoveryRow|
            {
                &&& reply_entity(
                    ctx,
                    text_identity(nfs_identity(ctx.responder@, port)),
                    "derivedService"@,
                    nfs_fields(catalogue_metadata),
                    Ok(bounded),
                )
                &&& row == (NativeDiscoveryRow {
                    parent_entity_id: row.parent_entity_id,
                    derivation_kind: row.derivation_kind,
                    ..bounded
                })
                &&& row.parent_entity_id matches Some(p) && p@ == parent
                &&& row.derivation_kind matches Some(d) && d@ == "rpcbindGetAddress"@
            },
    }
}

/// The NFS endpoint entity an rpcbind follow-up derives: the endpoint at
/// the responder and port, with the NFS probe's metadata, naming its
/// rpcbind parent.
pub fn nfs_row(ctx: &ReplyContext, port: u16, catalogue_metadata: Vec<u8>, parent: &String) -> (r: Result<
    NativeDiscoveryRow,
    (),
>)
    ensures
        nfs_entity(*ctx, port, catalogue_metadata@, parent@, r),
{
    let mut metadata: Vec<NativeDiscoveryMetadataField> = Vec::new();
    metadata.push(field_text("rpcProgram", "100003"));
    metadata.push(field_text("rpcVersion", "3"));
    let ghost bytes = catalogue_metadata@;
    metadata.push(
        NativeDiscoveryMetadataField {
            key: owned("catalogueMetadata"),
            value: catalogue_metadata,
            text: None,
        },
    );
    proof {
        assert(field_views(metadata@) =~= nfs_fields(bytes));
    }
    let mut identity = String::from_str("nfs3://");
    let endpoint = endpoint_string(&ctx.responder, port);
    identity.append(endpoint.as_str());
    proof {
        assert(identity@ == nfs_identity(ctx.responder@, port));
    }
    let identity_bytes = bytes_of(identity.as_str());
    let built = reply_row(ctx, identity_bytes, "derivedService", metadata);
    let ghost outcome = built;
    match built {
        Ok(mut row) => {
            let ghost bounded = row;
            proof {
                assert(reply_entity(
                    *ctx,
                    text_identity(nfs_identity(ctx.responder@, port)),
                    "derivedService"@,
                    nfs_fields(bytes),
                    Ok(bounded),
                ));
            }
            row.parent_entity_id = Some(parent.clone());
            row.derivation_kind = Some(owned("rpcbindGetAddress"));
            proof {
                assert(row == (NativeDiscoveryRow {
                    parent_entity_id: row.parent_entity_id,
                    derivation_kind: row.derivation_kind,
                    ..bounded
                }));
            }
            Ok(row)
        },
        Err(_) => {
            proof {
                assert(outcome is Err);
            }
            Err(())
        },
    }
}

/// The text fields with one key and each of a list of values, in order.
pub open spec fn keyed_fields(key: Seq<char>, values: Seq<String>) -> Seq<FieldView> {
    values.map_values(|v: String| text_field(key, v@))
}

fn push_keyed(metadata: &mut Vec<NativeDiscoveryMetadataField>, key: &str, values: &Vec<String>)
    ensures
        field_views(final(metadata)@) == field_views(old(metadata)@) + keyed_fields(key@, values@),
{
    let ghost start = field_views(metadata@);
    let mut i: usize = 0;
    while i < values.len()
        invariant
            i <= values@.len(),
            field_views(metadata@) == start + keyed_fields(key@, values@.take(i as int)),
        decreases values@.len() - i,
    {
        let ghost prior = metadata@;
        let field = field_text(key, values[i].as_str());
        metadata.push(field);
        proof {
            assert(keyed_fields(key@, values@.take(i + 1)) =~= keyed_fields(key@, values@.take(i as int)).push(
                field_view(field),
            ));
            assert(field_views(metadata@) =~= field_views(prior).push(field_view(field)));
        }
        i = i + 1;
    }
    proof {
        assert(values@.take(i as int) =~= values@);
    }
}

/// One WS-Discovery probe match.
pub struct WsMatch {
    pub endpoint_address: String,
    pub types: Vec<String>,
    pub scopes: Vec<String>,
    pub xaddrs: Vec<String>,
    pub metadata_version: u32,
}

/// The metadata of a WS-Discovery device entity: its types, scopes and
/// transport addresses, then its metadata version.
pub open spec fn ws_fields(m: WsMatch) -> Seq<FieldView> {
    keyed_fields("type"@, m.types@) + keyed_fields("scope"@, m.scopes@) + keyed_fields(
        "xaddr"@,
        m.xaddrs@,
    ) + seq![text_field("metadataVersion"@, decimal(m.metadata_version as nat))]
}

/// The entities of a WS-Discovery reply: one device per probe match, by its
/// endpoint address; the reply is refused where it matched nothing or an
/// entity breaks its bounds.
pub fn ws_discovery_rows(ctx: &ReplyContext, matches: &Vec<WsMatch>) -> (r: Result<
    Vec<NativeDiscoveryRow>,
    (),
>)
    ensures
        match r {
            Ok(rows) => {
                &&& rows@.len() == matches@.len() > 0
                &&& forall|i: int|
                    0 <= i < rows@.len() ==> reply_entity(
                        *ctx,
                        text_identity((#[trigger] matches@[i]).endpoint_address@),
                        "device"@,
                        ws_fields(matches@[i]),
                        Ok(rows@[i]),
                    )
            },
            Err(_) => matches@.len() == 0 || exists|i: int|
                0 <= i < matches@.len() && !identity_fits(
                    text_identity((#[trigger] matches@[i]).endpoint_address@),
                ),
        },
{
    let mut rows: Vec<NativeDiscoveryRow> = Vec::new();
    let mut i: usize = 0;
    while i < matches.len()
        invariant
            i <= matches@.len(),
            rows@.len() == i,
            forall|k: int|
                0 <= k < i ==> reply_entity(
                    *ctx,
                    text_identity((#[trigger] matches@[k]).endpoint_address@),
                    "device"@,
                    ws_fields(matches@[k]),
                    Ok(rows@[k]),
                ),
        decreases matches@.len() - i,
    {
        let item = &matches[i];
        let mut metadata: Vec<NativeDiscoveryMetadataField> = Vec::new();
        push_keyed(&mut metadata, "type", &item.types);
        push_keyed(&mut metadata, "scope", &item.scopes);
        push_keyed(&mut metadata, "xaddr", &item.xaddrs);
        let ghost prior = metadata@;
        let version = decimal_string(item.metadata_version as u64);
        let field = field_text("metadataVersion", version.as_str());
        metadata.push(field);
        proof {
            assert(field_views(metadata@) =~= field_views(prior).push(field_view(field)));
            assert(field_views(metadata@) =~= ws_fields(*item));
        }
        let built = reply_row(ctx, bytes_of(item.endpoint_address.as_str()), "device", metadata);
        match built {
            Ok(row) => {
                rows.push(row);
            },
            Err(_) => {
                return Err(());
            },
        }
        i = i + 1;
    }
    if rows.len() == 0 {
        return Err(());
    }
    Ok(rows)
}

/// One SQL Server instance a browser reply lists.
pub struct SqlInstance {
    pub server_name: String,
    pub instance_name: String,
    pub fields: Vec<(String, String)>,
}

/// The identity of an instance: `server\instance`.
pub open spec fn instance_identity(instance: SqlInstance) -> Seq<char> {
    instance.server_name@ + "\\"@ + instance.instance_name@
}

/// The identity of the SQL Server browser at an address.
pub open spec fn browser_identity(responder: Seq<char>) -> Seq<char> {
    "sql-browser://"@ + responder + ":1434"@
}

/// The metadata of the SQL Server browser entity.
pub open spec fn browser_fields(instances: nat) -> Seq<FieldView> {
    seq![
        text_field("transport"@, "udp"@),
        text_field("port"@, "1434"@),
        text_field("instanceCount"@, decimal(instances)),
    ]
}

/// The entities of a SQL Server browser reply: the browser service, then
/// one database instance per listed instance with its fields; the reply is
/// refused where an entity breaks its bounds.
pub fn sql_browser_rows(ctx: &ReplyContext, instances: &Vec<SqlInstance>) -> (r: Result<
    Vec<NativeDiscoveryRow>,
    (),
>)
    ensures
        match r {
            Ok(rows) => {
                &&& rows@.len() == instances@.len() + 1
                &&& reply_entity(
                    *ctx,
                    text_identity(browser_identity(ctx.responder@)),
                    "service"@,
                    browser_fields(instances@.len()),
                    Ok(rows@[0]),
                )
                &&& forall|i: int|
                    0 <= i < instances@.len() ==> reply_entity(
                        *ctx,
                        text_identity(instance_identity(#[trigger] instances@[i])),
                        "databaseInstance"@,
                        pair_fields(instances@[i].fields@),
                        Ok(rows@[i + 1]),
                    )
            },
            Err(_) => !identity_fits(text_identity(browser_identity(ctx.responder@))) || exists|
                i: int,
            |
                0 <= i < instances@.len() && !identity_fits(
                    text_identity(instance_identity(#[trigger] instances@[i])),
                ),
        },
{
    let mut metadata: Vec<NativeDiscoveryMetadataField> = Vec::new();
    metadata.push(field_text("transport", "udp"));
    metadata.push(field_text("port", "1434"));
    let count = decimal_string(instances.len() as u64);
    metadata.push(field_text("instanceCount", count.as_str()));
    proof {
        assert(field_views(metadata@) =~= browser_fields(instances@.len()));
    }
    let mut identity = String::from_str("sql-browser://");
    identity.append(ctx.responder.as_str());
    identity.append(":1434");
    let service = match reply_row(ctx, bytes_of(identity.as_str()), "service", metadata) {
        Ok(row) => row,
        Err(_) => {
            return Err(());
        },
    };
    let mut rows: Vec<NativeDiscoveryRow> = Vec::new();
    rows.push(service);
    let mut i: usize = 0;
    while i < instances.len()
        invariant
            i <= instances@.len(),
            rows@.len() == i + 1,
            reply_entity(
                *ctx,
                text_identity(browser_identity(ctx.responder@)),
                "service"@,
                browser_fields(instances@.len()),
                Ok(rows@[0]),
            ),
            forall|k: int|
                0 <= k < i ==> reply_entity(
                    *ctx,
                    text_identity(instance_identity(#[trigger] instances@[k])),
                    "databaseInstance"@,
                    pair_fields(instances@[k].fields@),
                    Ok(rows@[k + 1]),
                ),
        decreases instances@.len() - i,
    {
        let instance = &instances[i];
        let mut name = String::from_str(instance.server_name.as_str());
        name.append("\\");
        name.append(instance.instance_name.as_str());
        let mut fields: Vec<NativeDiscoveryMetadataField> = Vec::new();
        push_pairs(&mut fields, &instance.fields);
        proof {
            assert(field_views(fields@) =~= pair_fields(instance.fields@));
        }
        match reply_row(ctx, bytes_of(name.as_str()), "databaseInstance", fields) {
            Ok(row) => {
                rows.push(row);
            },
            Err(_) => {
                return Err(());
            },
        }
        i = i + 1;
    }
    Ok(rows)
}

/// An LLMNR answer of class IN for the queried name applies to an A query
/// when it is an A record with an IPv4 address, and to an AAAA query when it
/// is an AAAA record with an IPv6 address, and the entity it yields lists
/// exactly that address; an answer without an address never applies.
pub proof fn address_answers_apply_to_their_query_type(
    answer: LlmnrAnswer,
    query_name: Seq<char>,
    text: String,
    query_type: u16,
)
    requires
        answer.record_class == 1,
        answer.name_text matches Some(name) && equal_ignoring_ascii_case(
            without_trailing_dots(name@),
            without_trailing_dots(query_name),
        ),
    ensures
        answer.address == AnswerAddress::V6(text) && answer.record_type == 28 ==> answer_applies(
            answer,
            query_name,
            28,
        ) && answer_address(answer, 28) == Some(text@),
        answer.address == AnswerAddress::V4(text) && answer.record_type == 1 ==> answer_applies(
            answer,
            query_name,
            1,
        ) && answer_address(answer, 1) == Some(text@),
        answer.address == AnswerAddress::V6(text) && query_type != 28 ==> !answer_applies(
            answer,
            query_name,
            query_type,
        ),
        answer.address == AnswerAddress::V4(text) && query_type != 1 ==> !answer_applies(
            answer,
            query_name,
            query_type,
        ),
        answer.address is Other ==> !answer_applies(answer, query_name, query_type),
        answer.record_type != query_type ==> !answer_applies(answer, query_name, query_type),
{
}

/// An LLMNR answer for another name, or of another class, never applies.
pub proof fn answers_for_other_names_never_apply(
    answer: LlmnrAnswer,
    query_name: Seq<char>,
    query_type: u16,
)
    ensures
        answer.record_class != 1 ==> !answer_applies(answer, query_name, query_type),
        answer.name_text is None ==> !answer_applies(answer, query_name, query_type),
        (answer.name_text matches Some(name) && !equal_ignoring_ascii_case(
            without_trailing_dots(name@),
            without_trailing_dots(query_name),
        )) ==> !answer_applies(answer, query_name, query_type),
{
}

} // verus!
