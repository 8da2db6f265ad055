//! The cross-origin policy applied to every response, over a plain model of
//! a response: a status, a list of headers and a body.

use vstd::prelude::*;
use vstd::string::*;

verus! {

/// The method of a request.
#[derive(Clone, Copy, Debug, PartialEq, Eq)]
pub enum Method {
    Get,
    Put,
    Post,
    Delete,
    Options,
    Head,
    Trace,
    Connect,
    Patch,
}

/// The lower-case form of an ASCII capital; any other character is itself.
pub open spec fn lower(c: char) -> char {
    if 'A' <= c && c <= 'Z' {
        ((c as u8) + 32) as char
    } else {
        c
    }
}

/// Two header names are the same when they differ at most in the case of
/// their ASCII letters.
pub open spec fn same_name(a: Seq<char>, b: Seq<char>) -> bool {
    a.map_values(|c: char| lower(c)) == b.map_values(|c: char| lower(c))
}

fn lower_of(c: char) -> (l: char)
    ensures
        l == lower(c),
{
    if 'A' <= c && c <= 'Z' {
        ((c as u8) + 32) as char
    } else {
        c
    }
}

/// Compares two header names, ignoring the case of ASCII letters.
pub fn names_match(a: &str, b: &str) -> (same: bool)
    ensures
        same == same_name(a@, b@),
{
    let n = a.unicode_len();
    if b.unicode_len() != n {
        assert(a@.map_values(|c: char| lower(c)).len() != b@.map_values(|c: char| lower(c)).len());
        return false;
    }
    let mut i: usize = 0;
    while i < n
        invariant
            i <= n,
            n == a@.len(),
            n == b@.len(),
            forall|k: int| 0 <= k < i ==> lower(a@[k]) == lower(b@[k]),
        decreases n - i,
    {
        if lower_of(a.get_char(i)) != lower_of(b.get_char(i)) {
            assert(a@.map_values(|c: char| lower(c))[i as int] != b@.map_values(
                |c: char| lower(c),
            )[i as int]);
            return false;
        }
        i += 1;
    }
    assert(a@.map_values(|c: char| lower(c)) =~= b@.map_values(|c: char| lower(c)));
    true
}

/// One header of a response.
#[derive(Debug, PartialEq, Eq)]
pub struct Header {
    pub name: String,
    pub value: String,
}

/// A header, with name and value as sequences of characters.
pub struct HeaderView {
    pub name: Seq<char>,
    pub value: Seq<char>,
}

impl View for Header {
    type V = HeaderView;

    open spec fn view(&self) -> HeaderView {
        HeaderView { name: self.name@, value: self.value@ }
    }
}

/// The views of a list of headers.
pub open spec fn header_views(headers: Seq<Header>) -> Seq<HeaderView> {
    Seq::new(headers.len(), |i: int| headers[i]@)
}

/// The headers of `headers` that are not named `name`, in their order.
pub open spec fn without(headers: Seq<HeaderView>, name: Seq<char>) -> Seq<HeaderView>
    decreases headers.len(),
{
    if headers.len() == 0 {
        headers
    } else {
        let rest = without(headers.drop_last(), name);
        if same_name(headers.last().name, name) {
            rest
        } else {
            rest.push(headers.last())
        }
    }
}

/// The values of the headers of `headers` that are named `name`, in their
/// order.
pub open spec fn values(headers: Seq<HeaderView>, name: Seq<char>) -> Seq<Seq<char>>
    decreases headers.len(),
{
    if headers.len() == 0 {
        Seq::empty()
    } else {
        let rest = values(headers.drop_last(), name);
        if same_name(headers.last().name, name) {
            rest.push(headers.last().value)
        } else {
            rest
        }
    }
}

/// `headers` after `header` has taken the place of every header of its name.
pub open spec fn with_header(headers: Seq<HeaderView>, header: HeaderView) -> Seq<HeaderView> {
    without(headers, header.name).push(header)
}

/// A response: its status code, its headers and its body.
#[derive(Debug, PartialEq, Eq)]
pub struct Response {
    pub status: u16,
    pub headers: Vec<Header>,
    pub body: Vec<u8>,
}

/// A response, with its headers and body as sequences.
pub struct ResponseView {
    pub status: u16,
    pub headers: Seq<HeaderView>,
    pub body: Seq<u8>,
}

impl View for Response {
    type V = ResponseView;

    open spec fn view(&self) -> ResponseView {
        ResponseView {
            status: self.status,
            headers: header_views(self.headers@),
            body: self.body@,
        }
    }
}

impl ResponseView {
    /// The response is answered with exactly one header named `name`, and
    /// its value is `value`.
    pub open spec fn carries(self, name: Seq<char>, value: Seq<char>) -> bool {
        values(self.headers, name) == seq![value]
    }
}

impl Header {
    /// A header of the given name and value.
    pub fn new(name: &str, value: &str) -> (header: Header)
        ensures
            header@.name == name@,
            header@.value == value@,
    {
        Header { name: String::from_str(name), value: String::from_str(value) }
    }
}

impl Response {
    /// An empty response with status 200.
    pub fn new() -> (response: Response)
        ensures
            response@.status == 200,
            response@.headers == Seq::<HeaderView>::empty(),
            response@.body == Seq::<u8>::empty(),
    {
        Response { status: 200, headers: Vec::new(), body: Vec::new() }
    }

    /// Sets `header`, which replaces every header of the same name; tells
    /// whether there was one.
    pub fn set_header(&mut self, header: Header) -> (replaced: bool)
        ensures
            final(self)@.headers == with_header(old(self)@.headers, header@),
            final(self)@.status == old(self)@.status,
            final(self)@.body == old(self)@.body,
            replaced == (values(old(self)@.headers, header@.name).len() > 0),
    {
        let mut kept: Vec<Header> = Vec::new();
        let mut replaced = false;
        let n = self.headers.len();
        let mut i: usize = 0;
        while i < n
            invariant
                i <= n,
                n == self.headers@.len(),
                *self == *old(self),
                header_views(kept@) == without(
                    header_views(self.headers@).take(i as int),
                    header@.name,
                ),
                replaced == (values(header_views(self.headers@).take(i as int), header@.name).len()
                    > 0),
            decreases n - i,
        {
            let ghost all = header_views(self.headers@);
            assert(all.take(i + 1).drop_last() == all.take(i as int));
            assert(all.take(i + 1).last() == self.headers@[i as int]@);
            let h = &self.headers[i];
            if names_match(h.name.as_str(), header.name.as_str()) {
                replaced = true;
            } else {
                let ghost before = header_views(kept@);
                kept.push(Header { name: h.name.clone(), value: h.value.clone() });
                assert(header_views(kept@) == before.push(h@));
            }
            i += 1;
        }
        assert(header_views(self.headers@).take(n as int) == header_views(self.headers@));
        let ghost before = header_views(kept@);
        kept.push(header);
        assert(header_views(kept@) == before.push(header@));
        self.headers = kept;
        replaced
    }

    /// Sets the status code.
    pub fn set_status(&mut self, status: u16)
        ensures
            final(self)@ == (ResponseView { status, ..old(self)@ }),
    {
        self.status = status;
    }

    /// Sets the body, whose size is its length.
    pub fn set_sized_body(&mut self, body: Vec<u8>)
        ensures
            final(self)@ == (ResponseView { body: body@, ..old(self)@ }),
    {
        self.body = body;
    }
}

/// One change to a response.
#[derive(Debug, PartialEq, Eq)]
pub enum Edit {
    SetHeader(Header),
    SetBody(Vec<u8>),
    SetStatus(u16),
}

/// A change to a response, over views.
pub enum EditView {
    SetHeader(HeaderView),
    SetBody(Seq<u8>),
    SetStatus(u16),
}

impl View for Edit {
    type V = EditView;

    open spec fn view(&self) -> EditView {
        match self {
            Edit::SetHeader(header) => EditView::SetHeader(header@),
            Edit::SetBody(body) => EditView::SetBody(body@),
            Edit::SetStatus(status) => EditView::SetStatus(*status),
        }
    }
}

/// The views of a list of changes.
pub open spec fn edit_views(edits: Seq<Edit>) -> Seq<EditView> {
    Seq::new(edits.len(), |i: int| edits[i]@)
}

impl ResponseView {
    /// The response after one change.
    pub open spec fn edited(self, edit: EditView) -> ResponseView {
        match edit {
            EditView::SetHeader(header) => ResponseView {
                headers: with_header(self.headers, header),
                ..self
            },
            EditView::SetBody(body) => ResponseView { body, ..self },
            EditView::SetStatus(status) => ResponseView { status, ..self },
        }
    }

    /// The response after the changes of `edits`, first to last.
    pub open spec fn edited_all(self, edits: Seq<EditView>) -> ResponseView
        decreases edits.len(),
    {
        if edits.len() == 0 {
            self
        } else {
            self.edited_all(edits.drop_last()).edited(edits.last())
        }
    }
}

impl Response {
    /// Makes one change.
    pub fn apply(&mut self, edit: Edit)
        ensures
            final(self)@ == old(self)@.edited(edit@),
    {
        match edit {
            Edit::SetHeader(header) => {
                self.set_header(header);
            },
            Edit::SetBody(body) => {
                self.set_sized_body(body);
            },
            Edit::SetStatus(status) => {
                self.set_status(status);
            },
        }
    }

    /// Makes the changes of `edits`, first to last.
    pub fn apply_all(&mut self, edits: Vec<Edit>)
        ensures
            final(self)@ == old(self)@.edited_all(edit_views(edits@)),
    {
        let ghost all = edit_views(edits@);
        for edit in it: edits.into_iter()
            invariant
                it.seq() == edits@,
                all == edit_views(edits@),
                self@ == old(self)@.edited_all(all.take(it.index() as int)),
        {
            let ghost i = it.index() as int;
            assert(all.take(i + 1).drop_last() == all.take(i));
            assert(all.take(i + 1).last() == edit@);
            self.apply(edit);
        }
        assert(all.take(edits@.len() as int) == all);
    }
}

/// The stage at which a hook into the server runs.
#[derive(Clone, Copy, Debug, PartialEq, Eq)]
pub enum Kind {
    Ignite,
    Liftoff,
    Request,
    Response,
    Shutdown,
}

/// What a hook says of itself: its name and when it runs.
#[derive(Debug, PartialEq, Eq)]
pub struct Info {
    pub name: &'static str,
    pub kind: Kind,
}

/// `Access-Control-Allow-Origin: *`.
pub open spec fn allow_origin() -> HeaderView {
    HeaderView { name: "Access-Control-Allow-Origin"@, value: "*"@ }
}

/// `Access-Control-Allow-Methods: POST, GET, DELETE, OPTIONS`.
pub open spec fn allow_methods() -> HeaderView {
    HeaderView { name: "Access-Control-Allow-Methods"@, value: "POST, GET, DELETE, OPTIONS"@ }
}

/// `Access-Control-Allow-Headers: *`.
pub open spec fn allow_headers() -> HeaderView {
    HeaderView { name: "Access-Control-Allow-Headers"@, value: "*"@ }
}

/// `Access-Control-Allow-Credentials: true`.
pub open spec fn allow_credentials() -> HeaderView {
    HeaderView { name: "Access-Control-Allow-Credentials"@, value: "true"@ }
}

/// `Content-Type: text/plain; charset=utf-8`.
pub open spec fn plain_text() -> HeaderView {
    HeaderView { name: "Content-Type"@, value: "text/plain; charset=utf-8"@ }
}

/// The changes that the policy makes to the response to a request of method
/// `method`: the four fixed headers, and for a preflight request also a
/// plain-text content type, an empty body and status 200.
pub open spec fn policy(method: Method) -> Seq<EditView> {
    let fixed = seq![
        EditView::SetHeader(allow_origin()),
        EditView::SetHeader(allow_methods()),
        EditView::SetHeader(allow_headers()),
        EditView::SetHeader(allow_credentials()),
    ];
    if method is Options {
        fixed + seq![
            EditView::SetHeader(plain_text()),
            EditView::SetBody(Seq::empty()),
            EditView::SetStatus(200),
        ]
    } else {
        fixed
    }
}

/// The hook that adds the cross-origin headers to every response.
#[derive(Clone, Copy, Debug)]
pub struct CORS;

impl CORS {
    /// The hook's name, and that it runs on responses.
    pub fn info(&self) -> (info: Info)
        ensures
            info.name@ == "Add CORS headers to responses"@,
            info.kind is Response,
    {
        Info { name: "Add CORS headers to responses", kind: Kind::Response }
    }

    /// The changes to make to the response to a request of method `method`.
    pub fn edits(&self, method: Method) -> (edits: Vec<Edit>)
        ensures
            edit_views(edits@) == policy(method),
    {
        let mut edits: Vec<Edit> = Vec::new();
        edits.push(Edit::SetHeader(Header::new("Access-Control-Allow-Origin", "*")));
        edits.push(
            Edit::SetHeader(
                Header::new("Access-Control-Allow-Methods", "POST, GET, DELETE, OPTIONS"),
            ),
        );
        edits.push(Edit::SetHeader(Header::new("Access-Control-Allow-Headers", "*")));
        edits.push(Edit::SetHeader(Header::new("Access-Control-Allow-Credentials", "true")));
        if let Method::Options = method {
            edits.push(Edit::SetHeader(Header::new("Content-Type", "text/plain; charset=utf-8")));
            edits.push(Edit::SetBody(Vec::new()));
            edits.push(Edit::SetStatus(200));
        }
        assert(edit_views(edits@) =~= policy(method));
        edits
    }

    /// Applies the policy to `response`, the response to a request of method
    /// `method`, whatever the route made of it.
    pub fn on_response(&self, method: Method, response: &mut Response)
        ensures
            final(response)@ == old(response)@.edited_all(policy(method)),
            final(response)@.carries(allow_origin().name, allow_origin().value),
            final(response)@.carries(allow_methods().name, allow_methods().value),
            final(response)@.carries(allow_headers().name, allow_headers().value),
            final(response)@.carries(allow_credentials().name, allow_credentials().value),
            method is Options ==> final(response)@.status == 200 && final(response)@.body
                == Seq::<u8>::empty() && final(response)@.carries(
                plain_text().name,
                plain_text().value,
            ),
            !(method is Options) ==> final(response)@.status == old(response)@.status
                && final(response)@.body == old(response)@.body,
    {
        let edits = self.edits(method);
        response.apply_all(edits);
        proof {
            policy_carries(old(response)@, method);
        }
    }
}

/// Setting a header leaves the headers of other names as they were, and
/// leaves its own name with the one value that was set.
pub proof fn with_header_values(headers: Seq<HeaderView>, header: HeaderView, name: Seq<char>)
    ensures
        values(with_header(headers, header), name) == if same_name(header.name, name) {
            seq![header.value]
        } else {
            values(headers, name)
        },
{
    without_values(headers, header.name, name);
    let kept = without(headers, header.name);
    assert(kept.push(header).drop_last() == kept);
    if same_name(header.name, name) {
        assert(Seq::<Seq<char>>::empty().push(header.value) == seq![header.value]);
    }
}

proof fn without_values(headers: Seq<HeaderView>, gone: Seq<char>, name: Seq<char>)
    ensures
        values(without(headers, gone), name) == if same_name(gone, name) {
            Seq::<Seq<char>>::empty()
        } else {
            values(headers, name)
        },
    decreases headers.len(),
{
    if headers.len() > 0 {
        without_values(headers.drop_last(), gone, name);
        let rest = without(headers.drop_last(), gone);
        if !same_name(headers.last().name, gone) {
            assert(rest.push(headers.last()).drop_last() == rest);
        }
    }
}

proof fn names_differ()
    ensures
        !same_name(allow_origin().name, allow_methods().name),
        !same_name(allow_origin().name, allow_headers().name),
        !same_name(allow_origin().name, allow_credentials().name),
        !same_name(allow_origin().name, plain_text().name),
        !same_name(allow_methods().name, allow_headers().name),
        !same_name(allow_methods().name, allow_credentials().name),
        !same_name(allow_methods().name, plain_text().name),
        !same_name(allow_headers().name, allow_credentials().name),
        !same_name(allow_headers().name, plain_text().name),
        !same_name(allow_credentials().name, plain_text().name),
{
    reveal_strlit("Access-Control-Allow-Origin");
    reveal_strlit("Access-Control-Allow-Methods");
    reveal_strlit("Access-Control-Allow-Headers");
    reveal_strlit("Access-Control-Allow-Credentials");
    reveal_strlit("Content-Type");
    let low = |c: char| lower(c);
    let origin = "Access-Control-Allow-Origin"@.map_values(low);
    let methods = "Access-Control-Allow-Methods"@.map_values(low);
    let headers = "Access-Control-Allow-Headers"@.map_values(low);
    let credentials = "Access-Control-Allow-Credentials"@.map_values(low);
    let plain = "Content-Type"@.map_values(low);
    assert(origin.len() == 27 && methods.len() == 28 && headers.len() == 28);
    assert(credentials.len() == 32 && plain.len() == 12);
    assert(methods[21] == 'm' && headers[21] == 'h');
}

/// Whatever the response and the method, the response that the policy leaves
/// carries each of the four fixed headers with its fixed value; for a
/// preflight request it is an empty plain-text response with status 200,
/// and for any other its status and body are as they were.
pub proof fn policy_carries(response: ResponseView, method: Method)
    ensures
        response.edited_all(policy(method)).carries(allow_origin().name, allow_origin().value),
        response.edited_all(policy(method)).carries(allow_methods().name, allow_methods().value),
        response.edited_all(policy(method)).carries(allow_headers().name, allow_headers().value),
        response.edited_all(policy(method)).carries(
            allow_credentials().name,
            allow_credentials().value,
        ),
        method is Options ==> response.edited_all(policy(method)).status == 200
            && response.edited_all(policy(method)).body == Seq::<u8>::empty()
            && response.edited_all(policy(method)).carries(plain_text().name, plain_text().value),
        !(method is Options) ==> response.edited_all(policy(method)).status == response.status
            && response.edited_all(policy(method)).body == response.body,
{
    names_differ();
    let e1 = EditView::SetHeader(allow_origin());
    let e2 = EditView::SetHeader(allow_methods());
    let e3 = EditView::SetHeader(allow_headers());
    let e4 = EditView::SetHeader(allow_credentials());
    let r0 = response;
    let r1 = r0.edited(e1);
    let r2 = r1.edited(e2);
    let r3 = r2.edited(e3);
    let r4 = r3.edited(e4);
    let names = seq![
        allow_origin().name,
        allow_methods().name,
        allow_headers().name,
        allow_credentials().name,
        plain_text().name,
    ];
    assert forall|k: int| 0 <= k < 5 implies {
        &&& values(r1.headers, names[k]) == if k == 0 {
            seq![allow_origin().value]
        } else {
            values(r0.headers, names[k])
        }
        &&& values(r2.headers, names[k]) == if k == 1 {
            seq![allow_methods().value]
        } else {
            values(r1.headers, names[k])
        }
        &&& values(r3.headers, names[k]) == if k == 2 {
            seq![allow_headers().value]
        } else {
            values(r2.headers, names[k])
        }
        &&& values(r4.headers, names[k]) == if k == 3 {
            seq![allow_credentials().value]
        } else {
            values(r3.headers, names[k])
        }
    } by {
        with_header_values(r0.headers, allow_origin(), names[k]);
        with_header_values(r1.headers, allow_methods(), names[k]);
        with_header_values(r2.headers, allow_headers(), names[k]);
        with_header_values(r3.headers, allow_credentials(), names[k]);
    }
    assert(names[0] == allow_origin().name && names[1] == allow_methods().name);
    assert(names[2] == allow_headers().name && names[3] == allow_credentials().name);
    let fixed = seq![e1, e2, e3, e4];
    assert(fixed.drop_last() == seq![e1, e2, e3]);
    assert(seq![e1, e2, e3].drop_last() == seq![e1, e2]);
    assert(seq![e1, e2].drop_last() == seq![e1]);
    assert(seq![e1].drop_last() == Seq::<EditView>::empty());
    reveal_with_fuel(ResponseView::edited_all, 5);
    assert(r0.edited_all(fixed) == r4);
    if method is Options {
        let e5 = EditView::SetHeader(plain_text());
        let e6 = EditView::SetBody(Seq::empty());
        let e7 = EditView::SetStatus(200);
        let r5 = r4.edited(e5);
        assert forall|k: int| 0 <= k < 5 implies values(r5.headers, names[k]) == if k == 4 {
            seq![plain_text().value]
        } else {
            values(r4.headers, names[k])
        } by {
            with_header_values(r4.headers, plain_text(), names[k]);
        }
        assert(names[4] == plain_text().name);
        let all = policy(method);
        assert(all == seq![e1, e2, e3, e4, e5, e6, e7]);
        assert(all.drop_last() == seq![e1, e2, e3, e4, e5, e6]);
        assert(seq![e1, e2, e3, e4, e5, e6].drop_last() == seq![e1, e2, e3, e4, e5]);
        assert(seq![e1, e2, e3, e4, e5].drop_last() == fixed);
        assert(r0.edited_all(all) == r5.edited(e6).edited(e7));
    }
}

} // verus!
