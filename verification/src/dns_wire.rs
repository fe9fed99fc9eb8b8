//! DNS messages on the wire, decoded and encoded by `hickory-proto`, and
//! what the forwarder decides about them: whether a readiness answer is
//! valid, what a SERVFAIL or a blocked answer contains, how long an answer
//! may be cached, and how a cached answer is aged.

use vstd::prelude::*;
use hickory_resolver::proto::op::{Message, MessageType, OpCode, Query, ResponseCode};
use hickory_resolver::proto::rr::{rdata::A, Name, RData, Record};
use crate::text::{concat, decimal, to_string, str_eq, str_ends_with, ends_with, starts_with, trim_end_char, view_strings, str_trim_end_char};

verus! {

/// A question of a DNS message: its name as `Name` displays it (Unicode
/// labels, a trailing dot when fully qualified), its record type and its
/// class.
#[derive(Debug, Clone, PartialEq, Eq)]
pub struct DnsQuestion {
    pub name: String,
    pub record_type: u16,
    pub class: u16,
}

pub struct DnsQuestionView {
    pub name: Seq<char>,
    pub record_type: u16,
    pub class: u16,
}

impl View for DnsQuestion {
    type V = DnsQuestionView;

    open spec fn view(&self) -> DnsQuestionView {
        DnsQuestionView { name: self.name@, record_type: self.record_type, class: self.class }
    }
}

/// What the forwarder reads of a decoded DNS message.
#[derive(Debug, Clone)]
pub struct DnsMessageSummary {
    pub id: u16,
    pub is_response: bool,
    pub op_code: u8,
    pub recursion_desired: bool,
    pub response_code: u16,
    pub questions: Vec<DnsQuestion>,
    pub answer_count: usize,
}

pub struct DnsMessageView {
    pub id: u16,
    pub is_response: bool,
    pub op_code: u8,
    pub recursion_desired: bool,
    pub response_code: u16,
    pub questions: Seq<DnsQuestionView>,
    pub answer_count: usize,
}

impl View for DnsMessageSummary {
    type V = DnsMessageView;

    open spec fn view(&self) -> DnsMessageView {
        DnsMessageView {
            id: self.id,
            is_response: self.is_response,
            op_code: self.op_code,
            recursion_desired: self.recursion_desired,
            response_code: self.response_code,
            questions: self.questions@.map_values(|q: DnsQuestion| q@),
            answer_count: self.answer_count,
        }
    }
}

/// What `hickory_proto::op::Message::from_vec` makes of a packet, as the
/// forwarder reads it; `None` when it does not decode.
pub uninterp spec fn dns_decode(wire: Seq<u8>) -> Option<DnsMessageView>;

/// `Message::from_vec`, read into a summary: the header fields, the
/// questions and the number of answers. The decoder's error text is passed
/// on as it is.
#[verifier::external_body]
pub fn decode_dns_message(wire: &[u8]) -> (r: Result<DnsMessageSummary, String>)
    ensures
        r is Ok <==> dns_decode(wire@) is Some,
        r matches Ok(m) ==> dns_decode(wire@) == Some(m@),
{
    let m = Message::from_vec(wire).map_err(|e| e.to_string())?;
    let question = |q: &Query| DnsQuestion { name: q.name().to_string(), record_type: q.query_type().into(),
        class: q.query_class().into() };
    let h = m.metadata;
    Ok(DnsMessageSummary { id: h.id, is_response: h.message_type == MessageType::Response,
        op_code: h.op_code.into(), recursion_desired: h.recursion_desired, response_code: h.response_code.into(),
        questions: m.queries.iter().map(question).collect(), answer_count: m.answers.len() })
}

/// How `hickory` names a response code: `{:?}` of the `ResponseCode`
/// that `From<u16>` makes of it, a registered name or `Unknown(code)`.
pub open spec fn rcode_name(code: u16) -> Seq<char> {
    if code == 0 { "NoError"@ }
    else if code == 1 { "FormErr"@ }
    else if code == 2 { "ServFail"@ }
    else if code == 3 { "NXDomain"@ }
    else if code == 4 { "NotImp"@ }
    else if code == 5 { "Refused"@ }
    else if code == 6 { "YXDomain"@ }
    else if code == 7 { "YXRRSet"@ }
    else if code == 8 { "NXRRSet"@ }
    else if code == 9 { "NotAuth"@ }
    else if code == 10 { "NotZone"@ }
    else if code == 16 { "BADSIG"@ }
    else if code == 17 { "BADKEY"@ }
    else if code == 18 { "BADTIME"@ }
    else if code == 19 { "BADMODE"@ }
    else if code == 20 { "BADNAME"@ }
    else if code == 21 { "BADALG"@ }
    else if code == 22 { "BADTRUNC"@ }
    else if code == 23 { "BADCOOKIE"@ }
    else { "Unknown("@ + decimal(code as nat) + ")"@ }
}

/// `format!("{:?}", ResponseCode::from(code))` for the 16-bit code: the
/// crate's table of registered codes, `Unknown(code)` for the others.
#[verifier::external_body]
pub fn response_code_name(code: u16) -> (r: String)
    ensures
        r@ == rcode_name(code),
{
    format!("{:?}", <ResponseCode as From<u16>>::from(code))
}

/// A DNS message to encode: its header, its questions (by name, type and
/// class) and `A` answers (name, TTL, address).
#[derive(Debug, Clone)]
pub struct DnsMessageDraft {
    pub id: u16,
    pub is_response: bool,
    pub op_code: u8,
    pub recursion_desired: bool,
    pub recursion_available: bool,
    pub response_code: u16,
    pub questions: Vec<DnsQuestion>,
    pub a_answers: Vec<(String, u32, [u8; 4])>,
}

pub struct DnsMessageDraftView {
    pub id: u16,
    pub is_response: bool,
    pub op_code: u8,
    pub recursion_desired: bool,
    pub recursion_available: bool,
    pub response_code: u16,
    pub questions: Seq<DnsQuestionView>,
    pub a_answers: Seq<(Seq<char>, u32, [u8; 4])>,
}

impl View for DnsMessageDraft {
    type V = DnsMessageDraftView;

    open spec fn view(&self) -> DnsMessageDraftView {
        DnsMessageDraftView {
            id: self.id,
            is_response: self.is_response,
            op_code: self.op_code,
            recursion_desired: self.recursion_desired,
            recursion_available: self.recursion_available,
            response_code: self.response_code,
            questions: self.questions@.map_values(|q: DnsQuestion| q@),
            a_answers: self.a_answers@.map_values(|a: (String, u32, [u8; 4])| (a.0@, a.1, a.2)),
        }
    }
}

/// What `Message::to_vec` produces for a draft; `None` when a name is not
/// a valid domain name or encoding fails.
pub uninterp spec fn dns_encode(draft: DnsMessageDraftView) -> Option<Seq<u8>>;

/// Builds the `hickory` message of a draft and encodes it with
/// `Message::to_vec`.
#[verifier::external_body]
pub fn encode_dns_message(draft: &DnsMessageDraft) -> (r: Option<Vec<u8>>)
    ensures
        r is Some <==> dns_encode(draft@) is Some,
        r matches Some(w) ==> dns_encode(draft@) == Some(w@),
{
    let mut m = Message::new(draft.id, if draft.is_response { MessageType::Response } else { MessageType::Query },
        OpCode::from_u8(draft.op_code));
    m.metadata.recursion_desired = draft.recursion_desired;
    m.metadata.recursion_available = draft.recursion_available;
    m.metadata.response_code = draft.response_code.into();
    for q in &draft.questions {
        m.add_query(Query::query(Name::from_utf8(&q.name).ok()?, q.record_type.into()).set_query_class(q.class.into()).clone());
    }
    for (name, ttl, ip) in &draft.a_answers {
        m.add_answer(Record::from_rdata(Name::from_utf8(name).ok()?, *ttl, RData::A(A((*ip).into()))));
    }
    m.to_vec().ok()
}

/// The TTLs of the records of a packet: answers, authorities and
/// additionals, in order; `None` when it does not decode.
pub uninterp spec fn dns_record_ttls(wire: Seq<u8>) -> Option<(Seq<u32>, Seq<u32>, Seq<u32>)>;

/// `Message::from_vec`, read for the TTL of each record of each section.
#[verifier::external_body]
pub fn record_ttls(wire: &[u8]) -> (r: Option<(Vec<u32>, Vec<u32>, Vec<u32>)>)
    ensures
        r is Some <==> dns_record_ttls(wire@) is Some,
        r matches Some((a, b, c)) ==> dns_record_ttls(wire@) == Some((a@, b@, c@)),
{
    let m = Message::from_vec(wire).ok()?;
    let ttls = |rs: &Vec<Record>| rs.iter().map(|r| r.ttl).collect();
    Some((ttls(&m.answers), ttls(&m.authorities), ttls(&m.additionals)))
}

/// What a packet becomes when the TTLs of its records (answers, then
/// authorities, then additionals) are replaced by `ttls`, one for each
/// record, in order; `None` when it does not decode or encoding fails.
pub uninterp spec fn dns_with_ttls(wire: Seq<u8>, ttls: Seq<u32>) -> Option<Seq<u8>>;

/// Decodes a packet with `Message::from_vec`, sets the TTL of each record
/// in section order from `ttls` (one for each record), and encodes it
/// with `Message::to_vec`.
#[verifier::external_body]
fn replace_record_ttls(wire: &[u8], ttls: &Vec<u32>) -> (r: Option<Vec<u8>>)
    requires
        dns_record_ttls(wire@) matches Some((a, b, c)) && ttls@.len() == a.len() + b.len() + c.len(),
    ensures
        r is Some <==> dns_with_ttls(wire@, ttls@) is Some,
        r matches Some(w) ==> dns_with_ttls(wire@, ttls@) == Some(w@),
{
    let mut message = Message::from_vec(wire).ok()?;
    let records = message.answers.iter_mut().chain(message.authorities.iter_mut()).chain(message.additionals.iter_mut());
    for (record, ttl) in records.zip(ttls.iter()) {
        record.ttl = *ttl;
    }
    message.to_vec().ok()
}

impl DnsQuestion {
    pub fn duplicate(&self) -> (r: DnsQuestion)
        ensures
            r@ == self@,
    {
        DnsQuestion { name: self.name.clone(), record_type: self.record_type, class: self.class }
    }
}

fn duplicate_questions(qs: &Vec<DnsQuestion>) -> (r: Vec<DnsQuestion>)
    ensures
        r@.map_values(|q: DnsQuestion| q@) == qs@.map_values(|q: DnsQuestion| q@),
{
    let mut r: Vec<DnsQuestion> = Vec::new();
    let mut i: usize = 0;
    while i < qs.len()
        invariant
            i <= qs@.len(),
            r@.map_values(|q: DnsQuestion| q@) == qs@.take(i as int).map_values(|q: DnsQuestion| q@),
        decreases qs@.len() - i,
    {
        let q = qs[i].duplicate();
        let ghost old_r = r@;
        r.push(q);
        proof {
            assert(r@.map_values(|q: DnsQuestion| q@) =~= old_r.map_values(|q: DnsQuestion| q@).push(q@));
            assert(qs@.take(i + 1).map_values(|q: DnsQuestion| q@) =~= qs@.take(i as int).map_values(|q: DnsQuestion| q@).push(qs@[i as int]@));
        }
        i += 1;
    }
    proof {
        assert(qs@.take(qs@.len() as int) =~= qs@);
    }
    r
}

// ---------------------------------------------------------------------------
// Decisions on decoded messages
// ---------------------------------------------------------------------------

pub const RECORD_TYPE_A: u16 = 1;
pub const DNS_CLASS_IN: u16 = 1;
pub const RCODE_NO_ERROR: u16 = 0;
pub const RCODE_SERVFAIL: u16 = 2;
pub const RCODE_REFUSED: u16 = 5;

/// Two questions ask the same thing: the same name (ignoring a trailing
/// dot), type and class.
pub open spec fn same_question(a: DnsQuestionView, b: DnsQuestionView) -> bool {
    &&& trim_end_char(a.name, '.') == trim_end_char(b.name, '.')
    &&& a.record_type == b.record_type
    &&& a.class == b.class
}

pub open spec fn same_questions(a: Seq<DnsQuestionView>, b: Seq<DnsQuestionView>) -> bool {
    a.len() == b.len() && forall|i: int| 0 <= i < a.len() ==> same_question(#[trigger] a[i], b[i])
}

/// The verdict on an answer to a readiness query: it must decode, be a
/// response, carry the query's id and questions, and be a NOERROR answer
/// with at least one record; the answer count is returned.
pub open spec fn readiness_verdict(query: DnsMessageView, wire: Seq<u8>) -> Result<nat, Seq<char>> {
    match dns_decode(wire) {
        None => Err("malformed DNS response: "@),
        Some(r) => if !r.is_response {
            Err("packet is not a DNS response"@)
        } else if r.id != query.id {
            Err("transaction ID mismatch"@)
        } else if !same_questions(r.questions, query.questions) {
            Err("question mismatch"@)
        } else if r.response_code == RCODE_NO_ERROR {
            if r.answer_count == 0 {
                Err("NOERROR response contains no answers"@)
            } else {
                Ok(r.answer_count as nat)
            }
        } else if r.response_code == RCODE_SERVFAIL {
            Err("upstream returned SERVFAIL"@)
        } else if r.response_code == RCODE_REFUSED {
            Err("upstream returned REFUSED"@)
        } else {
            Err("upstream returned DNS response code: "@ + rcode_name(r.response_code))
        },
    }
}

fn questions_match(a: &Vec<DnsQuestion>, b: &Vec<DnsQuestion>) -> (r: bool)
    ensures
        r == same_questions(a@.map_values(|q: DnsQuestion| q@), b@.map_values(|q: DnsQuestion| q@)),
{
    let ghost av = a@.map_values(|q: DnsQuestion| q@);
    let ghost bv = b@.map_values(|q: DnsQuestion| q@);
    if a.len() != b.len() {
        return false;
    }
    let mut i: usize = 0;
    while i < a.len()
        invariant
            i <= a@.len(),
            a@.len() == b@.len(),
            av == a@.map_values(|q: DnsQuestion| q@),
            bv == b@.map_values(|q: DnsQuestion| q@),
            forall|k: int| 0 <= k < i ==> same_question(#[trigger] av[k], bv[k]),
        decreases a@.len() - i,
    {
        let x = str_trim_end_char(a[i].name.as_str(), '.');
        let y = str_trim_end_char(b[i].name.as_str(), '.');
        if !(str_eq(x.as_str(), y.as_str()) && a[i].record_type == b[i].record_type && a[i].class == b[i].class) {
            assert(!same_question(av[i as int], bv[i as int]));
            return false;
        }
        i += 1;
    }
    true
}

/// Checks the answer to a readiness query and returns its answer count.
pub fn validate_readiness_response(query: &DnsMessageSummary, wire: &[u8]) -> (r: Result<usize, String>)
    ensures
        dns_decode(wire@) is None ==> (r matches Err(e) && starts_with(e@, "malformed DNS response: "@)),
        dns_decode(wire@) is Some ==> match (r, readiness_verdict(query@, wire@)) {
            (Ok(n), Ok(m)) => n == m,
            (Err(e), Err(t)) => e@ == t,
            _ => false,
        },
{
    let response = match decode_dns_message(wire) {
        Ok(m) => m,
        Err(detail) => {
            let e = concat("malformed DNS response: ", detail.as_str());
            proof {
                assert(e@.subrange(0, "malformed DNS response: "@.len() as int) =~= "malformed DNS response: "@);
            }
            return Err(e);
        },
    };
    if !response.is_response {
        return Err("packet is not a DNS response".to_string());
    }
    if response.id != query.id {
        return Err("transaction ID mismatch".to_string());
    }
    if !questions_match(&response.questions, &query.questions) {
        return Err("question mismatch".to_string());
    }
    if response.response_code == RCODE_NO_ERROR {
        if response.answer_count == 0 {
            return Err("NOERROR response contains no answers".to_string());
        }
        Ok(response.answer_count)
    } else if response.response_code == RCODE_SERVFAIL {
        Err("upstream returned SERVFAIL".to_string())
    } else if response.response_code == RCODE_REFUSED {
        Err("upstream returned REFUSED".to_string())
    } else {
        let name = response_code_name(response.response_code);
        Err(concat("upstream returned DNS response code: ", name.as_str()))
    }
}

/// The query the readiness check sends: a recursive `A` query for the
/// target (without a trailing dot) under the given id.
pub open spec fn readiness_query_draft(id: u16, target: Seq<char>) -> DnsMessageDraftView {
    DnsMessageDraftView {
        id,
        is_response: false,
        op_code: 0,
        recursion_desired: true,
        recursion_available: false,
        response_code: RCODE_NO_ERROR,
        questions: seq![DnsQuestionView { name: trim_end_char(target, '.'), record_type: RECORD_TYPE_A, class: DNS_CLASS_IN }],
        a_answers: seq![],
    }
}

pub fn readiness_query(id: u16, target: &str) -> (r: (DnsMessageDraft, Option<Vec<u8>>))
    ensures
        r.0@ == readiness_query_draft(id, target@),
        r.1 is Some <==> dns_encode(r.0@) is Some,
        r.1 matches Some(w) ==> dns_encode(r.0@) == Some(w@),
{
    let name = str_trim_end_char(target, '.');
    let question = DnsQuestion { name, record_type: RECORD_TYPE_A, class: DNS_CLASS_IN };
    let draft = DnsMessageDraft {
        id,
        is_response: false,
        op_code: 0,
        recursion_desired: true,
        recursion_available: false,
        response_code: RCODE_NO_ERROR,
        questions: vec![question],
        a_answers: Vec::new(),
    };
    proof {
        assert(draft@.questions =~= readiness_query_draft(id, target@).questions);
        assert(draft@.a_answers =~= readiness_query_draft(id, target@).a_answers);
    }
    let wire = encode_dns_message(&draft);
    (draft, wire)
}

/// The SERVFAIL answer to a query: its id, operation and questions, with
/// recursion as the query asked and available.
pub open spec fn servfail_draft(q: DnsMessageView) -> DnsMessageDraftView {
    DnsMessageDraftView {
        id: q.id,
        is_response: true,
        op_code: q.op_code,
        recursion_desired: q.recursion_desired,
        recursion_available: true,
        response_code: RCODE_SERVFAIL,
        questions: q.questions,
        a_answers: seq![],
    }
}

pub fn servfail_response(query: &DnsMessageSummary) -> (r: DnsMessageDraft)
    ensures
        r@ == servfail_draft(query@),
{
    let r = DnsMessageDraft {
        id: query.id,
        is_response: true,
        op_code: query.op_code,
        recursion_desired: query.recursion_desired,
        recursion_available: true,
        response_code: RCODE_SERVFAIL,
        questions: duplicate_questions(&query.questions),
        a_answers: Vec::new(),
    };
    proof {
        assert(r@.questions =~= servfail_draft(query@).questions);
        assert(r@.a_answers =~= servfail_draft(query@).a_answers);
    }
    r
}

/// The answer to a blocked query: NOERROR for the one question, with an
/// `A` record pointing at 0.0.0.0 for an hour when an address was asked.
pub open spec fn blocked_draft(q: DnsMessageView, question: DnsQuestionView) -> DnsMessageDraftView {
    DnsMessageDraftView {
        id: q.id,
        is_response: true,
        op_code: q.op_code,
        recursion_desired: q.recursion_desired,
        recursion_available: true,
        response_code: RCODE_NO_ERROR,
        questions: seq![question],
        a_answers: if question.record_type == RECORD_TYPE_A {
            seq![(question.name, 3600u32, [0u8, 0u8, 0u8, 0u8])]
        } else {
            seq![]
        },
    }
}

pub fn blocked_response(query: &DnsMessageSummary, question: &DnsQuestion) -> (r: DnsMessageDraft)
    ensures
        r@ == blocked_draft(query@, question@),
{
    let answers: Vec<(String, u32, [u8; 4])> = if question.record_type == RECORD_TYPE_A {
        vec![(question.name.clone(), 3600u32, [0u8, 0u8, 0u8, 0u8])]
    } else {
        Vec::new()
    };
    let r = DnsMessageDraft {
        id: query.id,
        is_response: true,
        op_code: query.op_code,
        recursion_desired: query.recursion_desired,
        recursion_available: true,
        response_code: RCODE_NO_ERROR,
        questions: vec![question.duplicate()],
        a_answers: answers,
    };
    proof {
        assert(r@.questions =~= blocked_draft(query@, question@).questions);
        assert(r@.a_answers =~= blocked_draft(query@, question@).a_answers);
    }
    r
}

/// The smallest of a list of TTLs, if any.
pub open spec fn min_ttl(ttls: Seq<u32>) -> Option<u32>
    decreases ttls.len(),
{
    if ttls.len() == 0 {
        None
    } else {
        match min_ttl(ttls.drop_last()) {
            None => Some(ttls.last()),
            Some(m) => Some(if ttls.last() < m { ttls.last() } else { m }),
        }
    }
}

/// How long an answer is cached, in seconds: its shortest answer or
/// authority TTL (30 when it has none), kept between one second and a day.
pub open spec fn cache_ttl(answer_ttls: Seq<u32>, authority_ttls: Seq<u32>) -> u32 {
    let t = match min_ttl(answer_ttls + authority_ttls) {
        Some(m) => m,
        None => 30u32,
    };
    if t < 1 { 1 } else if t > 86400 { 86400 } else { t }
}

/// A TTL kept between one second and a day.
pub open spec fn clamp_ttl(t: u32) -> u32 {
    if t < 1 { 1 } else if t > 86400 { 86400 } else { t }
}

proof fn lemma_min_ttl_is_least(s: Seq<u32>)
    ensures
        s.len() == 0 <==> min_ttl(s) is None,
        min_ttl(s) matches Some(m) ==> (forall|i: int| 0 <= i < s.len() ==> m <= #[trigger] s[i]) && exists|i: int|
            0 <= i < s.len() && s[i] == m,
    decreases s.len(),
{
    if s.len() > 0 {
        lemma_min_ttl_is_least(s.drop_last());
        let m = min_ttl(s)->0;
        assert forall|i: int| 0 <= i < s.len() implies m <= #[trigger] s[i] by {
            if i < s.len() - 1 {
                assert(s.drop_last()[i] == s[i]);
            }
        }
        if m == s.last() {
            assert(s[s.len() - 1] == m);
        } else {
            let i = choose|i: int| 0 <= i < s.drop_last().len() && s.drop_last()[i] == m;
            assert(s[i] == m);
        }
    }
}

/// How long an answer is cached: no longer than any of its answer or
/// authority records may be kept (each clamped to one second .. one day),
/// and exactly as long as one of them, or 30 seconds when it has no
/// records at all.
pub proof fn lemma_cache_ttl_is_shortest_record(answer_ttls: Seq<u32>, authority_ttls: Seq<u32>)
    ensures
        forall|i: int| 0 <= i < answer_ttls.len() ==> cache_ttl(answer_ttls, authority_ttls) <= clamp_ttl(
            #[trigger] answer_ttls[i],
        ),
        forall|i: int| 0 <= i < authority_ttls.len() ==> cache_ttl(answer_ttls, authority_ttls) <= clamp_ttl(
            #[trigger] authority_ttls[i],
        ),
        answer_ttls.len() + authority_ttls.len() == 0 ==> cache_ttl(answer_ttls, authority_ttls) == 30,
        answer_ttls.len() + authority_ttls.len() > 0 ==> (exists|i: int|
            0 <= i < answer_ttls.len() && cache_ttl(answer_ttls, authority_ttls) == clamp_ttl(#[trigger] answer_ttls[i]))
            || (exists|i: int|
            0 <= i < authority_ttls.len() && cache_ttl(answer_ttls, authority_ttls) == clamp_ttl(
                #[trigger] authority_ttls[i],
            )),
{
    let all = answer_ttls + authority_ttls;
    lemma_min_ttl_is_least(all);
    let t = cache_ttl(answer_ttls, authority_ttls);
    assert forall|i: int| 0 <= i < answer_ttls.len() implies t <= clamp_ttl(#[trigger] answer_ttls[i]) by {
        assert(all[i] == answer_ttls[i]);
    }
    assert forall|i: int| 0 <= i < authority_ttls.len() implies t <= clamp_ttl(#[trigger] authority_ttls[i]) by {
        assert(all[answer_ttls.len() + i] == authority_ttls[i]);
    }
    if all.len() > 0 {
        let i = choose|i: int| 0 <= i < all.len() && all[i] == min_ttl(all)->0;
        if i < answer_ttls.len() {
            assert(answer_ttls[i] == all[i]);
        } else {
            assert(authority_ttls[i - answer_ttls.len()] == all[i]);
        }
    }
}

pub fn response_cache_ttl(answer_ttls: &Vec<u32>, authority_ttls: &Vec<u32>) -> (t: u32)
    ensures
        t == cache_ttl(answer_ttls@, authority_ttls@),
        1 <= t <= 86400,
{
    let ghost all = answer_ttls@ + authority_ttls@;
    let mut best: Option<u32> = None;
    let mut i: usize = 0;
    while i < answer_ttls.len()
        invariant
            i <= answer_ttls@.len(),
            all == answer_ttls@ + authority_ttls@,
            best == min_ttl(all.take(i as int)),
        decreases answer_ttls@.len() - i,
    {
        let t = answer_ttls[i];
        proof {
            assert(all[i as int] == t);
            assert(all.take(i + 1).drop_last() =~= all.take(i as int));
        }
        best = match best {
            None => Some(t),
            Some(m) => Some(if t < m { t } else { m }),
        };
        i += 1;
    }
    let mut j: usize = 0;
    while j < authority_ttls.len()
        invariant
            j <= authority_ttls@.len(),
            all == answer_ttls@ + authority_ttls@,
            best == min_ttl(all.take(answer_ttls@.len() + j)),
        decreases authority_ttls@.len() - j,
    {
        let t = authority_ttls[j];
        proof {
            assert(all[answer_ttls@.len() + j] == t);
            assert(all.take(answer_ttls@.len() + j + 1).drop_last() =~= all.take(answer_ttls@.len() + j));
        }
        best = match best {
            None => Some(t),
            Some(m) => Some(if t < m { t } else { m }),
        };
        j += 1;
    }
    proof {
        assert(all.take(answer_ttls@.len() + j) =~= all);
    }
    let t = match best {
        Some(m) => m,
        None => 30,
    };
    if t < 1 { 1 } else if t > 86400 { 86400 } else { t }
}

/// The record TTLs of a cached answer after `elapsed` seconds: each
/// lowered by the elapsed time, not below zero.
pub open spec fn aged_ttls(ttls: Seq<u32>, elapsed: u32) -> Seq<u32> {
    ttls.map_values(|t: u32| if t > elapsed { (t - elapsed) as u32 } else { 0u32 })
}

fn aged_into(out: &mut Vec<u32>, ttls: &Vec<u32>, elapsed: u32)
    ensures
        final(out)@ == old(out)@ + aged_ttls(ttls@, elapsed),
{
    let ghost start = out@;
    let mut i: usize = 0;
    while i < ttls.len()
        invariant
            i <= ttls@.len(),
            out@ == start + aged_ttls(ttls@.take(i as int), elapsed),
        decreases ttls@.len() - i,
    {
        let t = ttls[i];
        out.push(if t > elapsed { t - elapsed } else { 0 });
        proof {
            assert(out@ =~= start + aged_ttls(ttls@.take(i + 1), elapsed));
        }
        i += 1;
    }
    proof {
        assert(ttls@.take(ttls@.len() as int) =~= ttls@);
    }
}

/// A stored answer `elapsed` seconds on: every record's TTL aged; `None`
/// when the packet cannot be read or re-encoded.
pub open spec fn aged_response(wire: Seq<u8>, elapsed: u32) -> Option<Seq<u8>> {
    match dns_record_ttls(wire) {
        None => None,
        Some((a, b, c)) => dns_with_ttls(wire, aged_ttls(a + b + c, elapsed)),
    }
}

/// A cached answer as it is served `elapsed` seconds after it was stored:
/// every record's TTL aged; `None` when the stored packet cannot be
/// re-encoded.
pub fn age_cached_response(wire: &[u8], elapsed: u32) -> (r: Option<Vec<u8>>)
    ensures
        match aged_response(wire@, elapsed) {
            Some(w) => r matches Some(v) && v@ == w,
            None => r is None,
        },
{
    let (a, b, c) = match record_ttls(wire) {
        Some(t) => t,
        None => {
            return None;
        },
    };
    let ghost all = a@ + b@ + c@;
    let mut ttls: Vec<u32> = Vec::new();
    aged_into(&mut ttls, &a, elapsed);
    aged_into(&mut ttls, &b, elapsed);
    aged_into(&mut ttls, &c, elapsed);
    proof {
        assert(aged_ttls(a@, elapsed) + aged_ttls(b@, elapsed) + aged_ttls(c@, elapsed) =~= aged_ttls(all, elapsed));
        assert(ttls@.len() == all.len());
    }
    match replace_record_ttls(wire, &ttls) {
        Some(w) => Some(w),
        None => None,
    }
}

/// A question for a local name (`.local`, `.lan`, `.home` or `.arpa`),
/// which the system resolver answers.
pub open spec fn local_name(name: Seq<char>) -> bool {
    ||| ends_with(name, ".local."@)
    ||| ends_with(name, ".lan."@)
    ||| ends_with(name, ".home."@)
    ||| ends_with(name, ".arpa."@)
}

/// The suffixes of names the system resolver answers.
pub open spec fn local_suffixes() -> Seq<Seq<char>> {
    seq![".local."@, ".lan."@, ".home."@, ".arpa."@]
}

/// A name is local exactly when it is some name followed by one of
/// `.local.`, `.lan.`, `.home.` or `.arpa.`: every such name is local, and
/// every local name is one.
pub proof fn lemma_local_names(name: Seq<char>)
    ensures
        forall|p: Seq<char>, k: int| 0 <= k < 4 ==> #[trigger] local_name(p + local_suffixes()[k]),
        local_name(name) <==> exists|p: Seq<char>, k: int| 0 <= k < 4 && name == #[trigger] (p + local_suffixes()[k]),
{
    assert forall|p: Seq<char>, k: int| 0 <= k < 4 implies #[trigger] local_name(p + local_suffixes()[k]) by {
        let x = local_suffixes()[k];
        let n = p + x;
        assert(n.subrange(n.len() - x.len(), n.len() as int) =~= x);
        assert(ends_with(n, x));
        if k == 0 {
            assert(x == ".local."@);
        } else if k == 1 {
            assert(x == ".lan."@);
        } else if k == 2 {
            assert(x == ".home."@);
        } else {
            assert(x == ".arpa."@);
        }
    }
    if local_name(name) {
        let k: int = if ends_with(name, ".local."@) {
            0
        } else if ends_with(name, ".lan."@) {
            1
        } else if ends_with(name, ".home."@) {
            2
        } else {
            3
        };
        let x = local_suffixes()[k];
        assert(ends_with(name, x));
        let p = name.subrange(0, name.len() - x.len());
        assert(name =~= p + x);
    }
}

pub fn is_local_query(questions: &Vec<DnsQuestion>) -> (r: bool)
    ensures
        r == exists|i: int| 0 <= i < questions@.len() && local_name(#[trigger] questions@[i].name@),
{
    let mut i: usize = 0;
    while i < questions.len()
        invariant
            i <= questions@.len(),
            forall|k: int| 0 <= k < i ==> !local_name(#[trigger] questions@[k].name@),
        decreases questions@.len() - i,
    {
        let n = questions[i].name.as_str();
        if str_ends_with(n, ".local.") || str_ends_with(n, ".lan.") || str_ends_with(n, ".home.") || str_ends_with(n, ".arpa.") {
            return true;
        }
        i += 1;
    }
    false
}

/// A packet with its first two bytes (the transaction id) replaced by
/// `id`, big-endian; shorter packets are left alone.
pub open spec fn with_id(wire: Seq<u8>, id: u16) -> Seq<u8> {
    if wire.len() >= 2 {
        wire.update(0, (id / 256) as u8).update(1, (id % 256) as u8)
    } else {
        wire
    }
}

pub fn set_transaction_id(wire: &mut Vec<u8>, id: u16)
    ensures
        final(wire)@ == with_id(old(wire)@, id),
{
    if wire.len() >= 2 {
        wire.set(0, (id / 256) as u8);
        wire.set(1, (id % 256) as u8);
    }
}

/// Two queries that differ only in their transaction id share a cache
/// entry: the key is computed over the packet with a zero id.
pub fn cache_key_input(wire: &[u8]) -> (r: Vec<u8>)
    ensures
        r@ == with_id(wire@, 0),
{
    let mut v: Vec<u8> = Vec::new();
    let mut i: usize = 0;
    while i < wire.len()
        invariant
            i <= wire@.len(),
            v@ == wire@.take(i as int),
        decreases wire@.len() - i,
    {
        v.push(wire[i]);
        i += 1;
    }
    proof {
        assert(wire@.take(wire@.len() as int) =~= wire@);
    }
    set_transaction_id(&mut v, 0);
    v
}


// ---------------------------------------------------------------------------
// Functional readiness of the local forwarder
// ---------------------------------------------------------------------------

#[derive(Debug, Clone, Copy, PartialEq, Eq, Structural)]
pub enum ReadinessProtocol {
    Udp,
    Tcp,
}

/// The forwarder answered a real query over a protocol.
#[derive(Debug, Clone, PartialEq, Eq)]
pub struct FunctionalReadinessEvidence {
    pub protocol: ReadinessProtocol,
    pub transaction_id: u16,
    pub answer_count: usize,
    pub elapsed_ms: u64,
}

/// Why the forwarder was not found ready: the protocol, the stage that
/// failed (`query_build`, `bind`, `send`, `receive`, `connect`,
/// `write_length`, `write_query`, `read_length`, `read_body`, `validate`
/// or `timeout`) and the detail.
#[derive(Debug, Clone, PartialEq, Eq)]
pub struct FunctionalReadinessError {
    pub protocol: ReadinessProtocol,
    pub stage: &'static str,
    pub detail: String,
}

pub open spec fn readiness_protocol_name(p: ReadinessProtocol) -> Seq<char> {
    match p {
        ReadinessProtocol::Udp => "Udp"@,
        ReadinessProtocol::Tcp => "Tcp"@,
    }
}

impl FunctionalReadinessError {
    pub fn message(&self) -> (s: String)
        ensures
            s@ == "DNS "@ + readiness_protocol_name(self.protocol) + " functional readiness failed at "@ + self.stage@
                + ": "@ + self.detail@,
    {
        let p = match self.protocol {
            ReadinessProtocol::Udp => "Udp",
            ReadinessProtocol::Tcp => "Tcp",
        };
        let s = concat("DNS ", p);
        let s = concat(s.as_str(), " functional readiness failed at ");
        let s = concat(s.as_str(), self.stage);
        let s = concat(s.as_str(), ": ");
        concat(s.as_str(), self.detail.as_str())
    }
}

/// The length prefix of a TCP answer: a zero length is refused.
pub fn check_tcp_answer_length(length: u16, protocol: ReadinessProtocol) -> (r: Result<usize, FunctionalReadinessError>)
    ensures
        length > 0 ==> r == Ok::<usize, FunctionalReadinessError>(length as usize),
        length == 0 ==> (r matches Err(e) && e.protocol == protocol && e.stage@ == "read_length"@ && e.detail@
            == "zero-length DNS response"@),
{
    if length == 0 {
        return Err(FunctionalReadinessError {
            protocol,
            stage: "read_length",
            detail: "zero-length DNS response".to_string(),
        });
    }
    Ok(length as usize)
}

/// Judges the answer to a readiness query: the evidence of readiness, or
/// the validation failure.
pub fn readiness_result(
    protocol: ReadinessProtocol,
    query: &DnsMessageSummary,
    wire: &[u8],
    elapsed_ms: u64,
) -> (r: Result<FunctionalReadinessEvidence, FunctionalReadinessError>)
    ensures
        match r {
            Ok(ev) => ev.protocol == protocol && ev.transaction_id == query.id && ev.elapsed_ms == elapsed_ms
                && dns_decode(wire@) is Some && readiness_verdict(query@, wire@) == Ok::<nat, Seq<char>>(
                ev.answer_count as nat),
            Err(e) => e.protocol == protocol && e.stage@ == "validate"@ && readiness_verdict(query@, wire@) is Err,
        },
{
    match validate_readiness_response(query, wire) {
        Ok(n) => Ok(FunctionalReadinessEvidence { protocol, transaction_id: query.id, answer_count: n, elapsed_ms }),
        Err(detail) => Err(FunctionalReadinessError { protocol, stage: "validate", detail }),
    }
}

} // verus!
