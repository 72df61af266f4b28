use vstd::prelude::*;

use crate::decimal::{decimal, push_decimal};

verus! {

/// The consumption query for one meter over one time window.
///
/// `url` caches the request URL once it has been computed; it never holds
/// anything but `request_url(self)` (see `wf`).
pub struct ApiConfig {
    base_url: String,
    api_key: String,
    mpan: String,
    serial: String,
    page_size: usize,
    period_from: String,
    period_to: String,
    url: Option<String>,
}

/// The query fields of an `ApiConfig`, as mathematical values.
pub struct QueryView {
    pub base_url: Seq<char>,
    pub api_key: Seq<char>,
    pub mpan: Seq<char>,
    pub serial: Seq<char>,
    pub page_size: nat,
    pub period_from: Seq<char>,
    pub period_to: Seq<char>,
}

impl View for ApiConfig {
    type V = QueryView;

    closed spec fn view(&self) -> QueryView {
        QueryView {
            base_url: self.base_url@,
            api_key: self.api_key@,
            mpan: self.mpan@,
            serial: self.serial@,
            page_size: self.page_size as nat,
            period_from: self.period_from@,
            period_to: self.period_to@,
        }
    }
}

/// The request URL of the consumption endpoint for the given query fields.
pub open spec fn url_of(
    base_url: Seq<char>,
    mpan: Seq<char>,
    serial: Seq<char>,
    page_size: nat,
    period_from: Seq<char>,
    period_to: Seq<char>,
) -> Seq<char> {
    base_url + "/"@ + mpan + "/meters/"@ + serial + "/consumption/?page_size="@ + decimal(page_size)
        + "&period_from="@ + period_from + "&period_to="@ + period_to
}

/// Each query field stands in its own slot of the request URL, in the template's
/// order: base URL, meter point, meter serial, page size, start and end of the
/// period, each slot preceded by the template's fixed text.
pub proof fn lemma_url_layout(
    base_url: Seq<char>,
    mpan: Seq<char>,
    serial: Seq<char>,
    page_size: nat,
    period_from: Seq<char>,
    period_to: Seq<char>,
)
    ensures
        ({
            let u = url_of(base_url, mpan, serial, page_size, period_from, period_to);
            let s1: int = base_url.len() + "/"@.len() as int;
            let s2: int = s1 + mpan.len() + "/meters/"@.len();
            let s3: int = s2 + serial.len() + "/consumption/?page_size="@.len();
            let s4: int = s3 + decimal(page_size).len() + "&period_from="@.len();
            let s5: int = s4 + period_from.len() + "&period_to="@.len();
            &&& u.len() == s5 + period_to.len()
            &&& u.subrange(0, base_url.len() as int) == base_url
            &&& u.subrange(base_url.len() as int, s1) == "/"@
            &&& u.subrange(s1, s1 + mpan.len()) == mpan
            &&& u.subrange(s1 + mpan.len(), s2) == "/meters/"@
            &&& u.subrange(s2, s2 + serial.len()) == serial
            &&& u.subrange(s2 + serial.len(), s3) == "/consumption/?page_size="@
            &&& u.subrange(s3, s3 + decimal(page_size).len()) == decimal(page_size)
            &&& u.subrange(s3 + decimal(page_size).len(), s4) == "&period_from="@
            &&& u.subrange(s4, s4 + period_from.len()) == period_from
            &&& u.subrange(s4 + period_from.len(), s5) == "&period_to="@
            &&& u.subrange(s5, u.len() as int) == period_to
        }),
{
    let u = url_of(base_url, mpan, serial, page_size, period_from, period_to);
    let d = decimal(page_size);
    let a1 = base_url + "/"@;
    let a2 = a1 + mpan;
    let a3 = a2 + "/meters/"@;
    let a4 = a3 + serial;
    let a5 = a4 + "/consumption/?page_size="@;
    let a6 = a5 + d;
    let a7 = a6 + "&period_from="@;
    let a8 = a7 + period_from;
    let a9 = a8 + "&period_to="@;
    assert(u == a9 + period_to);
    assert(u.subrange(0, a9.len() as int) =~= a9);
    assert(a9.subrange(0, a8.len() as int) =~= a8);
    assert(a8.subrange(0, a7.len() as int) =~= a7);
    assert(a7.subrange(0, a6.len() as int) =~= a6);
    assert(a6.subrange(0, a5.len() as int) =~= a5);
    assert(a5.subrange(0, a4.len() as int) =~= a4);
    assert(a4.subrange(0, a3.len() as int) =~= a3);
    assert(a3.subrange(0, a2.len() as int) =~= a2);
    assert(a2.subrange(0, a1.len() as int) =~= a1);
    assert(u.subrange(0, base_url.len() as int) =~= base_url);
    assert(u.subrange(base_url.len() as int, a1.len() as int) =~= "/"@);
    assert(u.subrange(a1.len() as int, a2.len() as int) =~= mpan);
    assert(u.subrange(a2.len() as int, a3.len() as int) =~= "/meters/"@);
    assert(u.subrange(a3.len() as int, a4.len() as int) =~= serial);
    assert(u.subrange(a4.len() as int, a5.len() as int) =~= "/consumption/?page_size="@);
    assert(u.subrange(a5.len() as int, a6.len() as int) =~= d);
    assert(u.subrange(a6.len() as int, a7.len() as int) =~= "&period_from="@);
    assert(u.subrange(a7.len() as int, a8.len() as int) =~= period_from);
    assert(u.subrange(a8.len() as int, a9.len() as int) =~= "&period_to="@);
    assert(u.subrange(a9.len() as int, u.len() as int) =~= period_to);
}

/// Caching does not change the request URL: two well-formed descriptors with
/// the same query fields (as `cache_url` leaves them), whether their URL is
/// cached or not, ask for the same URL, which is what `url` returns on each.
pub proof fn lemma_url_cache_transparent(before: ApiConfig, after: ApiConfig)
    requires
        before.wf(),
        after.wf(),
        after@ == before@,
    ensures
        after.request_url() == before.request_url(),
{
}

impl ApiConfig {
    /// The API key, which the request carries in its authorization header.
    pub fn api_key(&self) -> (r: &str)
        ensures
            r@ == self@.api_key,
    {
        self.api_key.as_str()
    }

    /// The URL that this descriptor asks for.
    pub open spec fn request_url(&self) -> Seq<char> {
        url_of(
            self@.base_url,
            self@.mpan,
            self@.serial,
            self@.page_size,
            self@.period_from,
            self@.period_to,
        )
    }

    /// The cache, when filled, holds the request URL.
    pub closed spec fn wf(&self) -> bool {
        self.url matches Some(u) ==> u@ == self.request_url()
    }

    /// Whether the request URL has been computed and kept.
    pub closed spec fn is_cached(&self) -> bool {
        self.url is Some
    }

    pub fn new(
        base_url: &str,
        api_key: &str,
        mpan: &str,
        serial: &str,
        page_size: usize,
        period_from: &str,
        period_to: &str,
    ) -> (r: Self)
        ensures
            r.wf(),
            !r.is_cached(),
            r@ == (QueryView {
                base_url: base_url@,
                api_key: api_key@,
                mpan: mpan@,
                serial: serial@,
                page_size: page_size as nat,
                period_from: period_from@,
                period_to: period_to@,
            }),
    {
        ApiConfig {
            base_url: base_url.to_string(),
            api_key: api_key.to_string(),
            mpan: mpan.to_string(),
            serial: serial.to_string(),
            page_size,
            period_from: period_from.to_string(),
            period_to: period_to.to_string(),
            url: None,
        }
    }

    /// Builds the request URL from the query fields.
    fn compute_url(&self) -> (r: String)
        ensures
            r@ == self.request_url(),
    {
        let mut s = self.base_url.clone();
        s.append("/");
        s.append(self.mpan.as_str());
        s.append("/meters/");
        s.append(self.serial.as_str());
        s.append("/consumption/?page_size=");
        push_decimal(&mut s, self.page_size);
        s.append("&period_from=");
        s.append(self.period_from.as_str());
        s.append("&period_to=");
        s.append(self.period_to.as_str());
        s
    }

    /// The request URL: the cached one if present, else computed afresh.
    pub fn url(&self) -> (r: String)
        requires
            self.wf(),
        ensures
            r@ == self.request_url(),
    {
        match &self.url {
            Some(u) => u.clone(),
            None => self.compute_url(),
        }
    }

    /// Computes the request URL once and keeps it for later calls.
    pub fn cache_url(&mut self)
        requires
            old(self).wf(),
        ensures
            final(self).wf(),
            final(self).is_cached(),
            final(self)@ == old(self)@,
    {
        if self.url.is_none() {
            let u = self.compute_url();
            self.url = Some(u);
        }
    }
}

} // verus!
