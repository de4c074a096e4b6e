use vstd::prelude::*;
use crate::error::{Error, Reason, H3_GENERAL_PROTOCOL_ERROR};

verus! {

/// One header field: a name and a value, both raw bytes.
#[derive(Clone, Debug, PartialEq, Eq)]
pub struct Field {
    pub name: Vec<u8>,
    pub value: Vec<u8>,
}

/// Abstract value of a field.
pub type FieldView = (Seq<u8>, Seq<u8>);

impl View for Field {
    type V = FieldView;

    open spec fn view(&self) -> FieldView {
        (self.name@, self.value@)
    }
}

/// Abstract value of a list of fields.
pub open spec fn fields_view(fs: Seq<Field>) -> Seq<FieldView> {
    fs.map_values(|f: Field| f@)
}

/// A field section as delivered by (or handed to) the QPACK codec: the
/// fields and the codec's estimate of their size, which is what the
/// negotiated limits are checked against.
#[derive(Clone, Debug, PartialEq, Eq)]
pub struct HeaderBlock {
    pub fields: Vec<Field>,
    pub size: u64,
}

/// The head of a request: method, target split into its three parts, and
/// the regular header fields in the order they are to be sent.
#[derive(Clone, Debug, PartialEq, Eq)]
pub struct RequestHead {
    pub method: Vec<u8>,
    pub scheme: Vec<u8>,
    pub authority: Vec<u8>,
    pub path: Vec<u8>,
    pub headers: Vec<Field>,
}

/// The head of a response: its status code and regular header fields.
/// The protocol version is always HTTP/3.
#[derive(Clone, Debug, PartialEq, Eq)]
pub struct ResponseHead {
    pub status: u16,
    pub headers: Vec<Field>,
}

/// The byte `:` that starts every pseudo-header name.
pub const COLON: u8 = 58;

pub open spec fn is_pseudo_name(n: Seq<u8>) -> bool {
    n.len() > 0 && n[0] == COLON
}

pub open spec fn method_name() -> Seq<u8> {
    seq![58u8, 109, 101, 116, 104, 111, 100]
}

pub open spec fn scheme_name() -> Seq<u8> {
    seq![58u8, 115, 99, 104, 101, 109, 101]
}

pub open spec fn authority_name() -> Seq<u8> {
    seq![58u8, 97, 117, 116, 104, 111, 114, 105, 116, 121]
}

pub open spec fn path_name() -> Seq<u8> {
    seq![58u8, 112, 97, 116, 104]
}

pub open spec fn status_name() -> Seq<u8> {
    seq![58u8, 115, 116, 97, 116, 117, 115]
}

/// No field of `fs` has a pseudo-header name.
pub open spec fn all_regular(fs: Seq<FieldView>) -> bool {
    forall|i: int| 0 <= i < fs.len() ==> !is_pseudo_name(#[trigger] fs[i].0)
}

/// A request head forms a valid pseudo-header set when method, scheme,
/// authority and path are all present and no regular field poses as a
/// pseudo-header.
pub open spec fn request_valid(req: RequestHead) -> bool {
    &&& req.method@.len() > 0
    &&& req.scheme@.len() > 0
    &&& req.authority@.len() > 0
    &&& req.path@.len() > 0
    &&& all_regular(fields_view(req.headers@))
}

/// The field list of a request: the four pseudo-headers, then the regular
/// fields in order.
pub open spec fn request_field_list(req: RequestHead) -> Seq<FieldView> {
    seq![
        (method_name(), req.method@),
        (scheme_name(), req.scheme@),
        (authority_name(), req.authority@),
        (path_name(), req.path@),
    ] + fields_view(req.headers@)
}

fn has_pseudo_field(fs: &Vec<Field>) -> (r: bool)
    ensures
        r == !all_regular(fields_view(fs@)),
{
    let mut i: usize = 0;
    while i < fs.len()
        invariant
            i <= fs.len(),
            forall|j: int| 0 <= j < i ==> !is_pseudo_name(#[trigger] fs@[j].name@),
        decreases fs.len() - i,
    {
        let name = &fs[i].name;
        if name.len() > 0 && name[0] == COLON {
            assert(fields_view(fs@)[i as int].0 == fs@[i as int].name@);
            return true;
        }
        i += 1;
    }
    assert forall|j: int| 0 <= j < fields_view(fs@).len() implies !is_pseudo_name(
        #[trigger] fields_view(fs@)[j].0,
    ) by {
        assert(fields_view(fs@)[j].0 == fs@[j].name@);
    }
    false
}

fn pseudo_field(name: Vec<u8>, value: Vec<u8>) -> (r: Field)
    ensures
        r@ == (name@, value@),
{
    Field { name, value }
}

/// Builds the field list of a request, pseudo-headers first.
pub fn request_fields(req: RequestHead) -> (r: Result<Vec<Field>, Error>)
    ensures
        request_valid(req) ==> r.is_ok() && fields_view(r->Ok_0@) == request_field_list(req),
        !request_valid(req) ==> r == Err::<Vec<Field>, Error>(
            Error::Protocol { code: H3_GENERAL_PROTOCOL_ERROR, reason: Reason::InvalidRequestHead },
        ),
{
    let RequestHead { method, scheme, authority, path, headers } = req;
    if method.len() == 0 || scheme.len() == 0 || authority.len() == 0 || path.len() == 0
        || has_pseudo_field(&headers) {
        return Err(Error::protocol(H3_GENERAL_PROTOCOL_ERROR, Reason::InvalidRequestHead));
    }
    let mut out: Vec<Field> = Vec::new();
    out.push(pseudo_field(vec![58u8, 109, 101, 116, 104, 111, 100], method));
    out.push(pseudo_field(vec![58u8, 115, 99, 104, 101, 109, 101], scheme));
    out.push(pseudo_field(vec![58u8, 97, 117, 116, 104, 111, 114, 105, 116, 121], authority));
    out.push(pseudo_field(vec![58u8, 112, 97, 116, 104], path));
    let ghost front = out@;
    let mut rest = headers;
    out.append(&mut rest);
    proof {
        assert(fields_view(out@) =~= fields_view(front) + fields_view(req.headers@));
        assert(fields_view(front) =~= seq![
            (method_name(), req.method@),
            (scheme_name(), req.scheme@),
            (authority_name(), req.authority@),
            (path_name(), req.path@),
        ]);
    }
    Ok(out)
}

/// What `http::StatusCode::from_bytes` accepts: exactly three ASCII digits,
/// the first of them not zero; the value is the decimal number they spell.
pub open spec fn status_code_of(b: Seq<u8>) -> Option<u16> {
    if b.len() == 3 && 49 <= b[0] <= 57 && 48 <= b[1] <= 57 && 48 <= b[2] <= 57 {
        Some((100 * (b[0] - 48) + 10 * (b[1] - 48) + (b[2] - 48)) as u16)
    } else {
        None
    }
}

/// Relies on `http::StatusCode::from_bytes` (with `as_u16`) to read a
/// `:status` value: it accepts three digits whose first is 1 to 9 and
/// returns their decimal value, and refuses anything else.
#[verifier::external_body]
fn parse_status(b: &Vec<u8>) -> (r: Option<u16>)
    ensures
        r == status_code_of(b@),
{
    match http::StatusCode::from_bytes(b.as_slice()) {
        Ok(s) => Some(s.as_u16()),
        Err(_) => None,
    }
}

/// Number of pseudo-header fields in `fs`.
pub open spec fn pseudo_count(fs: Seq<FieldView>) -> nat
    decreases fs.len(),
{
    if fs.len() == 0 {
        0
    } else {
        pseudo_count(fs.drop_last()) + if is_pseudo_name(fs.last().0) { 1nat } else { 0nat }
    }
}

/// Every pseudo-header field of `fs` is `:status`.
pub open spec fn pseudo_only_status(fs: Seq<FieldView>) -> bool {
    forall|i: int| 0 <= i < fs.len() && is_pseudo_name(#[trigger] fs[i].0) ==> fs[i].0 == status_name()
}

/// The value of the last pseudo-header field of `fs` (empty when none).
pub open spec fn last_pseudo_value(fs: Seq<FieldView>) -> Seq<u8>
    decreases fs.len(),
{
    if fs.len() == 0 {
        Seq::empty()
    } else if is_pseudo_name(fs.last().0) {
        fs.last().1
    } else {
        last_pseudo_value(fs.drop_last())
    }
}

/// The regular (non-pseudo) fields of `fs`, in order.
pub open spec fn regular_fields(fs: Seq<FieldView>) -> Seq<FieldView>
    decreases fs.len(),
{
    if fs.len() == 0 {
        Seq::empty()
    } else if is_pseudo_name(fs.last().0) {
        regular_fields(fs.drop_last())
    } else {
        regular_fields(fs.drop_last()).push(fs.last())
    }
}

/// The response a decoded field section describes: exactly one
/// pseudo-header, `:status`, holding a valid status code; the remaining
/// fields are the response's headers.
pub open spec fn response_of(fs: Seq<FieldView>) -> Option<(u16, Seq<FieldView>)> {
    if pseudo_count(fs) == 1 && pseudo_only_status(fs) {
        match status_code_of(last_pseudo_value(fs)) {
            Some(s) => Some((s, regular_fields(fs))),
            None => None,
        }
    } else {
        None
    }
}

fn is_status_name(n: &Vec<u8>) -> (r: bool)
    ensures
        r == (n@ == status_name()),
{
    let ok = n.len() == 7 && n[0] == 58 && n[1] == 115 && n[2] == 116 && n[3] == 97 && n[4] == 116
        && n[5] == 117 && n[6] == 115;
    if ok {
        assert(n@ =~= status_name());
    }
    ok
}

fn copy_bytes(b: &Vec<u8>) -> (r: Vec<u8>)
    ensures
        r@ == b@,
{
    let r = b.clone();
    assert(r@ =~= b@);
    r
}

/// Reads a response head out of a decoded field section.
pub fn response_parts(fields: &Vec<Field>) -> (r: Result<ResponseHead, Error>)
    ensures
        match response_of(fields_view(fields@)) {
            Some((s, hs)) => r.is_ok() && r->Ok_0.status == s && fields_view(r->Ok_0.headers@) == hs,
            None => r == Err::<ResponseHead, Error>(
                Error::Protocol { code: H3_GENERAL_PROTOCOL_ERROR, reason: Reason::InvalidResponseHead },
            ),
        },
{
    let ghost fv = fields_view(fields@);
    let mut count: usize = 0;
    let mut only_status = true;
    let mut status: Vec<u8> = Vec::new();
    let mut regs: Vec<Field> = Vec::new();
    let mut i: usize = 0;
    while i < fields.len()
        invariant
            i <= fields.len(),
            fv == fields_view(fields@),
            count as nat == pseudo_count(fv.subrange(0, i as int)),
            count <= i,
            only_status == pseudo_only_status(fv.subrange(0, i as int)),
            status@ == last_pseudo_value(fv.subrange(0, i as int)),
            fields_view(regs@) == regular_fields(fv.subrange(0, i as int)),
        decreases fields.len() - i,
    {
        let f = &fields[i];
        let ghost pre = fv.subrange(0, i as int);
        let ghost post = fv.subrange(0, i + 1);
        assert(post.drop_last() =~= pre);
        assert(post.last() == f@);
        if f.name.len() > 0 && f.name[0] == COLON {
            count += 1;
            if !is_status_name(&f.name) {
                only_status = false;
                assert(!pseudo_only_status(post)) by {
                    assert(post[i as int] == f@);
                    assert(post[i as int].0 == f.name@);
                    assert(is_pseudo_name(post[i as int].0));
                    assert(post[i as int].0 != status_name());
                }
            } else {
                assert(pseudo_only_status(post) == pseudo_only_status(pre)) by {
                    assert forall|j: int| 0 <= j < i implies post[j] == pre[j] by {}
                    assert(post[i as int] == f@);
                }
            }
            status = copy_bytes(&f.value);
        } else {
            let g = Field { name: copy_bytes(&f.name), value: copy_bytes(&f.value) };
            let ghost old_regs = regs@;
            regs.push(g);
            assert(fields_view(regs@) =~= fields_view(old_regs).push(f@));
            assert(pseudo_only_status(post) == pseudo_only_status(pre)) by {
                assert forall|j: int| 0 <= j < i implies post[j] == pre[j] by {}
                assert(post[i as int] == f@);
            }
        }
        i += 1;
    }
    assert(fv.subrange(0, fields.len() as int) =~= fv);
    if count == 1 && only_status {
        match parse_status(&status) {
            Some(s) => Ok(ResponseHead { status: s, headers: regs }),
            None => Err(Error::protocol(H3_GENERAL_PROTOCOL_ERROR, Reason::InvalidResponseHead)),
        }
    } else {
        Err(Error::protocol(H3_GENERAL_PROTOCOL_ERROR, Reason::InvalidResponseHead))
    }
}

/// Checks that a field section carries no pseudo-header, as trailers must.
pub fn trailer_fields(fields: Vec<Field>) -> (r: Result<Vec<Field>, Error>)
    ensures
        all_regular(fields_view(fields@)) ==> r.is_ok() && r->Ok_0@ == fields@,
        !all_regular(fields_view(fields@)) ==> r == Err::<Vec<Field>, Error>(
            Error::Protocol { code: H3_GENERAL_PROTOCOL_ERROR, reason: Reason::PseudoHeaderInTrailers },
        ),
{
    if has_pseudo_field(&fields) {
        Err(Error::protocol(H3_GENERAL_PROTOCOL_ERROR, Reason::PseudoHeaderInTrailers))
    } else {
        Ok(fields)
    }
}

} // verus!
