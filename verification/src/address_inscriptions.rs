//! Address-keyed enrichment pipeline.
//!
//! One primary fetch lists the inscriptions an address owns; per item the
//! pipeline issues a detail fetch, then a stats fetch if and only if the
//! detail yielded a collection symbol, then a classification fetch, and
//! merges the results into one denormalized record per item. A failing
//! dependent call degrades its facet; a failing primary fetch fails the
//! call. The pipeline is a step machine: the host performs one fetch per
//! step and hands the outcome back.
use vstd::prelude::*;
use vstd::string::StringExecFns;

use crate::auth::is_authorized;
use crate::common::LastUpdated;
use crate::common::LastUpdatedM;
use crate::common::floor_price_facet;
use crate::common::floor_price_facet_x;
use crate::common::omb_facet;
use crate::common::omb_facet_x;
use crate::common::outcome_model;
use crate::common::parse_last_updated_at;
use crate::common::parse_last_updated_at_x;
use crate::common::symbol_facet;
use crate::common::symbol_facet_x;
use crate::credential::CredentialStore;
use crate::lexer::TokM;
use crate::lexer::lex;
use crate::lexer::lex_bytes;
use crate::lexer::toks_model;
use crate::request::RequestSpec;
use crate::request::address_inscriptions_request;
use crate::request::address_inscriptions_url;
use crate::request::collection_stats_request;
use crate::request::collection_stats_url;
use crate::request::inscription_info_request;
use crate::request::inscription_info_url;
use crate::request::omb_color_group_request;
use crate::request::omb_color_group_url;
use crate::request::request_is;
use crate::spans::arr_elems;
use crate::spans::arr_elems_x;
use crate::spans::obj_fields;
use crate::spans::obj_fields_x;
use crate::spans::opt_str;
use crate::spans::opt_str_x;
use crate::spans::req_int;
use crate::spans::req_int_x;
use crate::spans::req_pos;
use crate::spans::req_pos_x;
use crate::spans::req_str;
use crate::spans::req_str_x;

verus! {

/// One row of the primary address-keyed query.
pub struct MaestroAddressInscription {
    pub inscription_id: String,
    pub satoshis: String,
    pub utxo_sat_offset: i64,
    pub utxo_txid: String,
    pub utxo_vout: i32,
    pub utxo_block_height: i64,
    pub utxo_confirmations: i64,
}

/// Mathematical image of `MaestroAddressInscription`.
pub struct AddrItemM {
    pub inscription_id: Seq<char>,
    pub satoshis: Seq<char>,
    pub utxo_sat_offset: int,
    pub utxo_txid: Seq<char>,
    pub utxo_vout: int,
    pub utxo_block_height: int,
    pub utxo_confirmations: int,
}

impl View for MaestroAddressInscription {
    type V = AddrItemM;

    open spec fn view(&self) -> AddrItemM {
        AddrItemM {
            inscription_id: self.inscription_id@,
            satoshis: self.satoshis@,
            utxo_sat_offset: self.utxo_sat_offset as int,
            utxo_txid: self.utxo_txid@,
            utxo_vout: self.utxo_vout as int,
            utxo_block_height: self.utxo_block_height as int,
            utxo_confirmations: self.utxo_confirmations as int,
        }
    }
}

/// The envelope of the primary address-keyed query.
pub struct MaestroAddressInscriptionsResponse {
    pub data: Vec<MaestroAddressInscription>,
    pub last_updated: LastUpdated,
    pub next_cursor: Option<String>,
}

/// The mathematical image of a primary item list.
pub open spec fn items_model(v: Seq<MaestroAddressInscription>) -> Seq<AddrItemM> {
    v.map_values(|x: MaestroAddressInscription| x@)
}

/// Mathematical image of `MaestroAddressInscriptionsResponse`.
pub struct AddrPageM {
    pub data: Seq<AddrItemM>,
    pub last_updated: LastUpdatedM,
    pub next_cursor: Option<Seq<char>>,
}

impl View for MaestroAddressInscriptionsResponse {
    type V = AddrPageM;

    open spec fn view(&self) -> AddrPageM {
        AddrPageM {
            data: items_model(self.data@),
            last_updated: self.last_updated@,
            next_cursor: self.next_cursor.deep_view(),
        }
    }
}

/// One enriched output record: the primary row with its three facets.
pub struct AddressInscription {
    pub inscription_id: String,
    pub satoshis: String,
    pub utxo_sat_offset: i64,
    pub utxo_txid: String,
    pub utxo_vout: i32,
    pub utxo_block_height: i64,
    pub utxo_confirmations: i64,
    pub collection_symbol: Option<String>,
    pub floor_price: i64,
    pub omb_color: Option<String>,
    pub omb_floor_price: Option<i64>,
}

/// The enriched result set returned to the caller.
pub struct AddressInscriptions {
    pub data: Vec<AddressInscription>,
    pub last_updated: LastUpdated,
    pub next_cursor: Option<String>,
}

/// Parses one primary row at a token position.
pub open spec fn parse_addr_item_at(toks: Seq<TokM>, pos: int) -> Option<AddrItemM> {
    match obj_fields(toks, pos) {
        None => None,
        Some((fs, end)) => match req_str(toks, fs, "inscription_id"@) {
            None => None,
            Some(iid) => match req_str(toks, fs, "satoshis"@) {
                None => None,
                Some(sat) => match req_int(toks, fs, "utxo_sat_offset"@) {
                    None => None,
                    Some(off) => match req_str(toks, fs, "utxo_txid"@) {
                        None => None,
                        Some(txid) => match req_int(toks, fs, "utxo_vout"@) {
                            None => None,
                            Some(vout) => if !(i32::MIN <= vout <= i32::MAX) {
                                None
                            } else {
                                match req_int(toks, fs, "utxo_block_height"@) {
                                    None => None,
                                    Some(bh) => match req_int(toks, fs, "utxo_confirmations"@) {
                                        None => None,
                                        Some(conf) => Some(
                                            AddrItemM {
                                                inscription_id: iid,
                                                satoshis: sat,
                                                utxo_sat_offset: off,
                                                utxo_txid: txid,
                                                utxo_vout: vout,
                                                utxo_block_height: bh,
                                                utxo_confirmations: conf,
                                            },
                                        ),
                                    },
                                }
                            },
                        },
                    },
                },
            },
        },
    }
}

fn parse_addr_item_at_x(toks: &Vec<crate::lexer::Tok>, pos: usize) -> (r: Option<
    MaestroAddressInscription,
>)
    ensures
        match r {
            Some(v) => parse_addr_item_at(toks_model(toks@), pos as int) == Some(v@),
            None => parse_addr_item_at(toks_model(toks@), pos as int) is None,
        },
{
    let (fields, _end) = match obj_fields_x(toks, pos) {
        None => {
            return None;
        },
        Some(p) => p,
    };
    let iid = match req_str_x(toks, &fields, "inscription_id") {
        None => {
            return None;
        },
        Some(s) => s,
    };
    let sat = match req_str_x(toks, &fields, "satoshis") {
        None => {
            return None;
        },
        Some(s) => s,
    };
    let off = match req_int_x(toks, &fields, "utxo_sat_offset") {
        None => {
            return None;
        },
        Some(v) => v,
    };
    let txid = match req_str_x(toks, &fields, "utxo_txid") {
        None => {
            return None;
        },
        Some(s) => s,
    };
    let vout64 = match req_int_x(toks, &fields, "utxo_vout") {
        None => {
            return None;
        },
        Some(v) => v,
    };
    if !(-2147483648i64 <= vout64 && vout64 <= 2147483647i64) {
        return None;
    }
    let vout: i32 = vout64 as i32;
    let bh = match req_int_x(toks, &fields, "utxo_block_height") {
        None => {
            return None;
        },
        Some(v) => v,
    };
    let conf = match req_int_x(toks, &fields, "utxo_confirmations") {
        None => {
            return None;
        },
        Some(v) => v,
    };
    Some(
        MaestroAddressInscription {
            inscription_id: iid,
            satoshis: sat,
            utxo_sat_offset: off,
            utxo_txid: txid,
            utxo_vout: vout,
            utxo_block_height: bh,
            utxo_confirmations: conf,
        },
    )
}

/// Parses the rows at the given element positions, in order.
pub open spec fn parse_addr_items_from(toks: Seq<TokM>, elems: Seq<int>, i: int) -> Option<
    Seq<AddrItemM>,
>
    decreases elems.len() - i,
{
    if i < 0 {
        None
    } else if i >= elems.len() {
        Some(Seq::empty())
    } else {
        match parse_addr_item_at(toks, elems[i]) {
            None => None,
            Some(it) => match parse_addr_items_from(toks, elems, i + 1) {
                None => None,
                Some(rest) => Some(seq![it] + rest),
            },
        }
    }
}

fn parse_addr_items_x(toks: &Vec<crate::lexer::Tok>, elems: &Vec<usize>) -> (r: Option<
    Vec<MaestroAddressInscription>,
>)
    ensures
        match r {
            Some(v) => parse_addr_items_from(
                toks_model(toks@),
                elems@.map_values(|e: usize| e as int),
                0,
            ) == Some(items_model(v@)),
            None => parse_addr_items_from(
                toks_model(toks@),
                elems@.map_values(|e: usize| e as int),
                0,
            ) is None,
        },
{
    let ghost em = elems@.map_values(|e: usize| e as int);
    let n = elems.len();
    let mut out: Vec<MaestroAddressInscription> = Vec::new();
    let mut i: usize = 0;
    while i < n
        invariant
            0 <= i <= n,
            n == elems@.len(),
            em == elems@.map_values(|e: usize| e as int),
            out@.len() == i,
            match parse_addr_items_from(toks_model(toks@), em, i as int) {
                Some(rest) => parse_addr_items_from(toks_model(toks@), em, 0) == Some(
                    items_model(out@) + rest,
                ),
                None => parse_addr_items_from(toks_model(toks@), em, 0) is None,
            },
        decreases n - i,
    {
        proof {
            assert(em[i as int] == elems@[i as int] as int);
        }
        let it = match parse_addr_item_at_x(toks, elems[i]) {
            None => {
                return None;
            },
            Some(v) => v,
        };
        let ghost outm = out@;
        out.push(it);
        proof {
            assert(items_model(out@) =~= items_model(outm).push(it@));
            if let Some(rest) = parse_addr_items_from(toks_model(toks@), em, i as int + 1) {
                assert(items_model(outm) + (seq![it@] + rest) =~= items_model(out@) + rest);
            }
        }
        i = i + 1;
    }
    proof {
        assert(items_model(out@) + Seq::<AddrItemM>::empty() =~= items_model(out@));
    }
    Some(out)
}

/// Parses the primary page from its token sequence.
pub open spec fn parse_addr_page_toks(toks: Seq<TokM>) -> Option<AddrPageM> {
    match obj_fields(toks, 0) {
        None => None,
        Some((fs, end)) => if end != toks.len() {
            None
        } else {
            match req_pos(fs, "data"@) {
                None => None,
                Some(dp) => match arr_elems(toks, dp) {
                    None => None,
                    Some((elems, aend)) => match parse_addr_items_from(toks, elems, 0) {
                        None => None,
                        Some(items) => match req_pos(fs, "last_updated"@) {
                            None => None,
                            Some(lp) => match parse_last_updated_at(toks, lp) {
                                None => None,
                                Some(lu) => match opt_str(toks, fs, "next_cursor"@) {
                                    None => None,
                                    Some(nc) => Some(
                                        AddrPageM { data: items, last_updated: lu, next_cursor: nc },
                                    ),
                                },
                            },
                        },
                    },
                },
            }
        },
    }
}

/// Parses the primary page from raw bytes.
pub open spec fn parse_addr_page(bytes: Seq<u8>) -> Option<AddrPageM> {
    match lex(bytes) {
        None => None,
        Some(toks) => parse_addr_page_toks(toks),
    }
}

/// Parses one primary page; returns exactly what `parse_addr_page` assigns
/// to the bytes.
pub fn parse_addr_page_x(bytes: &Vec<u8>) -> (r: Option<MaestroAddressInscriptionsResponse>)
    ensures
        match r {
            Some(v) => parse_addr_page(bytes@) == Some(v@),
            None => parse_addr_page(bytes@) is None,
        },
{
    let toks = match lex_bytes(bytes) {
        None => {
            return None;
        },
        Some(t) => t,
    };
    let (fields, end) = match obj_fields_x(&toks, 0) {
        None => {
            return None;
        },
        Some(p) => p,
    };
    if end != toks.len() {
        return None;
    }
    let dp = match req_pos_x(&fields, "data") {
        None => {
            return None;
        },
        Some(p) => p,
    };
    let (elems, _aend) = match arr_elems_x(&toks, dp) {
        None => {
            return None;
        },
        Some(p) => p,
    };
    let items = match parse_addr_items_x(&toks, &elems) {
        None => {
            return None;
        },
        Some(v) => v,
    };
    let lp = match req_pos_x(&fields, "last_updated") {
        None => {
            return None;
        },
        Some(p) => p,
    };
    let lu = match parse_last_updated_at_x(&toks, lp) {
        None => {
            return None;
        },
        Some(v) => v,
    };
    let nc = match opt_str_x(&toks, &fields, "next_cursor") {
        None => {
            return None;
        },
        Some(s) => s,
    };
    Some(MaestroAddressInscriptionsResponse { data: items, last_updated: lu, next_cursor: nc })
}

/// Where the pipeline stands: which fetch the next outcome answers.
#[derive(Clone, Copy)]
pub enum AddrPhase {
    /// Awaiting the primary page.
    Primary,
    /// Awaiting the detail fetch of the current item.
    Detail,
    /// Awaiting the stats fetch of the current item's collection.
    Stats,
    /// Awaiting the classification fetch of the current item.
    Omb,
    /// Finished, well or badly; no further outcome is accepted.
    Done,
}

/// What the host must do next: perform one fetch, or return the result.
pub enum Action {
    /// Perform this outbound request and hand the outcome back.
    Fetch(RequestSpec),
    /// The call is complete; return this to the caller.
    Finished(Result<AddressInscriptions, String>),
}

/// The address-keyed pipeline state between steps.
pub struct AddressJob {
    pub api_key: String,
    pub items: Vec<MaestroAddressInscription>,
    pub last_updated: LastUpdated,
    pub next_cursor: Option<String>,
    pub idx: usize,
    pub phase: AddrPhase,
    pub cur_symbol: Option<String>,
    pub cur_floor: i64,
    pub out: Vec<AddressInscription>,
}

/// The base columns of a record equal its primary row.
pub open spec fn rec_base_matches(r: AddressInscription, it: AddrItemM) -> bool {
    &&& r.inscription_id@ == it.inscription_id
    &&& r.satoshis@ == it.satoshis
    &&& r.utxo_sat_offset as int == it.utxo_sat_offset
    &&& r.utxo_txid@ == it.utxo_txid
    &&& r.utxo_vout as int == it.utxo_vout
    &&& r.utxo_block_height as int == it.utxo_block_height
    &&& r.utxo_confirmations as int == it.utxo_confirmations
}

/// A record is its primary row zipped with the given facet values.
pub open spec fn rec_matches(
    r: AddressInscription,
    it: AddrItemM,
    sym: Option<Seq<char>>,
    floor: int,
    oc: Option<Seq<char>>,
    ofp: Option<int>,
) -> bool {
    &&& rec_base_matches(r, it)
    &&& r.collection_symbol.deep_view() == sym
    &&& r.floor_price as int == floor
    &&& r.omb_color.deep_view() == oc
    &&& match ofp {
        Some(v) => r.omb_floor_price matches Some(x) && x as int == v,
        None => r.omb_floor_price is None,
    }
}

/// Well-formedness of the pipeline state between steps.
pub open spec fn addr_wf(j: AddressJob) -> bool {
    &&& j.idx <= j.items@.len()
    &&& j.out@.len() == j.idx
    &&& (j.phase is Detail || j.phase is Stats || j.phase is Omb) ==> j.idx < j.items@.len()
    &&& j.phase is Primary ==> j.idx == 0 && j.items@.len() == 0
    &&& j.phase is Done ==> j.idx == j.items@.len()
    &&& forall|i: int|
        0 <= i < j.out@.len() ==> rec_base_matches(j.out@[i], items_model(j.items@)[i])
}

/// The fields a step never touches once the primary page is in.
pub open spec fn addr_base_unchanged(pre: AddressJob, post: AddressJob) -> bool {
    &&& post.api_key == pre.api_key
    &&& post.items == pre.items
    &&& post.last_updated == pre.last_updated
    &&& post.next_cursor == pre.next_cursor
}

/// The step relation on the primary outcome.
pub open spec fn addr_step_primary(
    pre: AddressJob,
    o: Result<Seq<u8>, Seq<char>>,
    post: AddressJob,
    act: Action,
) -> bool {
    match o {
        Err(e) => {
            &&& addr_base_unchanged(pre, post)
            &&& post.idx == pre.idx && post.out == pre.out
            &&& post.phase is Done
            &&& act matches Action::Finished(res) && res matches Err(m) && m@ == "HTTP error: "@
                + e
        },
        Ok(b) => match parse_addr_page(b) {
            None => {
                &&& addr_base_unchanged(pre, post)
                &&& post.idx == pre.idx && post.out == pre.out
                &&& post.phase is Done
                &&& act matches Action::Finished(res) && res matches Err(m) && m@
                    == "Failed to parse: invalid response body"@
            },
            Some(page) => {
                &&& post.api_key == pre.api_key
                &&& items_model(post.items@) == page.data
                &&& post.last_updated@ == page.last_updated
                &&& post.next_cursor.deep_view() == page.next_cursor
                &&& post.idx == 0
                &&& post.out@.len() == 0
                &&& if page.data.len() == 0 {
                    &&& post.phase is Done
                    &&& act matches Action::Finished(res) && res matches Ok(v) && {
                        &&& v.data@.len() == 0
                        &&& v.last_updated@ == page.last_updated
                        &&& v.next_cursor.deep_view() == page.next_cursor
                    }
                } else {
                    &&& post.phase is Detail
                    &&& act matches Action::Fetch(req) && request_is(
                        req,
                        pre.api_key@,
                        inscription_info_url(page.data[0].inscription_id),
                    )
                }
            },
        },
    }
}

/// The step relation on a detail outcome: the symbol facet decides whether
/// the stats fetch happens at all.
pub open spec fn addr_step_detail(
    pre: AddressJob,
    o: Result<Seq<u8>, Seq<char>>,
    post: AddressJob,
    act: Action,
) -> bool {
    &&& addr_base_unchanged(pre, post)
    &&& post.idx == pre.idx && post.out == pre.out
    &&& match symbol_facet(o) {
        Some(s) => {
            &&& post.phase is Stats
            &&& post.cur_symbol.deep_view() == Some(s)
            &&& post.cur_floor == pre.cur_floor
            &&& act matches Action::Fetch(req) && request_is(
                req,
                pre.api_key@,
                collection_stats_url(s),
            )
        },
        None => {
            &&& post.phase is Omb
            &&& post.cur_symbol is None
            &&& post.cur_floor == 0
            &&& act matches Action::Fetch(req) && request_is(
                req,
                pre.api_key@,
                omb_color_group_url(items_model(pre.items@)[pre.idx as int].inscription_id),
            )
        },
    }
}

/// The step relation on a stats outcome.
pub open spec fn addr_step_stats(
    pre: AddressJob,
    o: Result<Seq<u8>, Seq<char>>,
    post: AddressJob,
    act: Action,
) -> bool {
    &&& addr_base_unchanged(pre, post)
    &&& post.idx == pre.idx && post.out == pre.out
    &&& post.phase is Omb
    &&& post.cur_symbol == pre.cur_symbol
    &&& post.cur_floor as int == floor_price_facet(o)
    &&& act matches Action::Fetch(req) && request_is(
        req,
        pre.api_key@,
        omb_color_group_url(items_model(pre.items@)[pre.idx as int].inscription_id),
    )
}

/// The step relation on a classification outcome: the record is completed
/// and appended, and the pipeline moves to the next item or finishes.
pub open spec fn addr_step_omb(
    pre: AddressJob,
    o: Result<Seq<u8>, Seq<char>>,
    post: AddressJob,
    act: Action,
) -> bool {
    &&& addr_base_unchanged(pre, post)
    &&& post.out@.len() == pre.out@.len() + 1
    &&& post.out@ == pre.out@.push(post.out@.last())
    &&& rec_matches(
        post.out@.last(),
        items_model(pre.items@)[pre.idx as int],
        pre.cur_symbol.deep_view(),
        pre.cur_floor as int,
        omb_facet(o).0,
        omb_facet(o).1,
    )
    &&& post.idx == pre.idx + 1
    &&& if pre.idx + 1 < pre.items@.len() {
        &&& post.phase is Detail
        &&& act matches Action::Fetch(req) && request_is(
            req,
            pre.api_key@,
            inscription_info_url(items_model(pre.items@)[pre.idx as int + 1].inscription_id),
        )
    } else {
        &&& post.phase is Done
        &&& act matches Action::Finished(res) && res matches Ok(v) && {
            &&& v.data@ == post.out@
            &&& v.last_updated == pre.last_updated
            &&& v.next_cursor == pre.next_cursor
        }
    }
}

/// The full step relation of the address-keyed pipeline.
pub open spec fn addr_step(
    pre: AddressJob,
    o: Result<Seq<u8>, Seq<char>>,
    post: AddressJob,
    act: Action,
) -> bool {
    match pre.phase {
        AddrPhase::Primary => addr_step_primary(pre, o, post, act),
        AddrPhase::Detail => addr_step_detail(pre, o, post, act),
        AddrPhase::Stats => addr_step_stats(pre, o, post, act),
        AddrPhase::Omb => addr_step_omb(pre, o, post, act),
        AddrPhase::Done => false,
    }
}

/// Entry point of the address-keyed enrichment: checks authorization, reads
/// the credential, and hands back the pipeline state with the primary
/// request for the host to perform. Rejects an unauthorized caller or an
/// unset credential before any outbound work, with no state touched.
pub fn get_address_inscriptions(
    store: &CredentialStore,
    caller: &str,
    address: &str,
    count: &str,
) -> (r: Result<(AddressJob, RequestSpec), String>)
    ensures
        r is Ok <==> is_authorized(caller@) && store.key@.len() > 0,
        !is_authorized(caller@) ==> (r matches Err(m) && m@ == "Unauthorized"@),
        is_authorized(caller@) && store.key@.len() == 0 ==> (r matches Err(m) && m@
            == "API key not set"@),
        r matches Ok(p) ==> {
            &&& addr_wf(p.0)
            &&& p.0.phase is Primary
            &&& p.0.api_key@ == store.key@
            &&& request_is(p.1, store.key@, address_inscriptions_url(address@, count@))
        },
{
    match crate::auth::check_authorization(caller) {
        Err(m) => {
            return Err(m);
        },
        Ok(u) => u,
    };
    let api_key = match store.current_key() {
        Err(m) => {
            return Err(m);
        },
        Ok(k) => k,
    };
    let req = address_inscriptions_request(address, count, api_key.as_str());
    let job = AddressJob {
        api_key,
        items: Vec::new(),
        last_updated: LastUpdated { block_hash: String::new(), block_height: 0 },
        next_cursor: None,
        idx: 0,
        phase: AddrPhase::Primary,
        cur_symbol: None,
        cur_floor: 0,
        out: Vec::new(),
    };
    Ok((job, req))
}

impl AddressJob {
    /// Feeds one fetch outcome to the pipeline; the returned action is the
    /// next fetch to perform or the finished result. The step taken is
    /// exactly `addr_step`.
    pub fn on_response(&mut self, outcome: Result<Vec<u8>, String>) -> (act: Action)
        requires
            addr_wf(*old(self)),
            !(old(self).phase is Done),
        ensures
            addr_wf(*final(self)),
            addr_step(*old(self), outcome_model(outcome), *final(self), act),
    {
        match self.phase {
            AddrPhase::Primary => {
                let body = match outcome {
                    Err(e) => {
                        self.phase = AddrPhase::Done;
                        return Action::Finished(
                            Err(String::from_str("HTTP error: ").concat(e.as_str())),
                        );
                    },
                    Ok(b) => b,
                };
                let page = match parse_addr_page_x(&body) {
                    None => {
                        self.phase = AddrPhase::Done;
                        return Action::Finished(
                            Err(String::from_str("Failed to parse: invalid response body")),
                        );
                    },
                    Some(p) => p,
                };
                self.items = page.data;
                self.last_updated = page.last_updated;
                self.next_cursor = page.next_cursor;
                self.idx = 0;
                self.out = Vec::new();
                if self.items.len() == 0 {
                    self.phase = AddrPhase::Done;
                    let res = AddressInscriptions {
                        data: Vec::new(),
                        last_updated: self.last_updated.clone_value(),
                        next_cursor: clone_opt_string(&self.next_cursor),
                    };
                    Action::Finished(Ok(res))
                } else {
                    self.phase = AddrPhase::Detail;
                    Action::Fetch(
                        inscription_info_request(
                            self.items[0].inscription_id.as_str(),
                            self.api_key.as_str(),
                        ),
                    )
                }
            },
            AddrPhase::Detail => {
                match symbol_facet_x(&outcome) {
                    Some(sym) => {
                        let req = collection_stats_request(sym.as_str(), self.api_key.as_str());
                        self.cur_symbol = Some(sym);
                        self.phase = AddrPhase::Stats;
                        Action::Fetch(req)
                    },
                    None => {
                        self.cur_symbol = None;
                        self.cur_floor = 0;
                        self.phase = AddrPhase::Omb;
                        Action::Fetch(
                            omb_color_group_request(
                                self.items[self.idx].inscription_id.as_str(),
                                self.api_key.as_str(),
                            ),
                        )
                    },
                }
            },
            AddrPhase::Stats => {
                self.cur_floor = floor_price_facet_x(&outcome);
                self.phase = AddrPhase::Omb;
                Action::Fetch(
                    omb_color_group_request(
                        self.items[self.idx].inscription_id.as_str(),
                        self.api_key.as_str(),
                    ),
                )
            },
            AddrPhase::Omb => {
                let (oc, ofp) = omb_facet_x(&outcome);
                let it = &self.items[self.idx];
                let rec = AddressInscription {
                    inscription_id: it.inscription_id.clone(),
                    satoshis: it.satoshis.clone(),
                    utxo_sat_offset: it.utxo_sat_offset,
                    utxo_txid: it.utxo_txid.clone(),
                    utxo_vout: it.utxo_vout,
                    utxo_block_height: it.utxo_block_height,
                    utxo_confirmations: it.utxo_confirmations,
                    collection_symbol: clone_opt_string(&self.cur_symbol),
                    floor_price: self.cur_floor,
                    omb_color: oc,
                    omb_floor_price: ofp,
                };
                let ghost outm = self.out@;
                self.out.push(rec);
                let n = self.items.len();
                self.idx = self.idx + 1;
                if self.idx < self.items.len() {
                    self.phase = AddrPhase::Detail;
                    Action::Fetch(
                        inscription_info_request(
                            self.items[self.idx].inscription_id.as_str(),
                            self.api_key.as_str(),
                        ),
                    )
                } else {
                    self.phase = AddrPhase::Done;
                    let res = AddressInscriptions {
                        data: clone_records(&self.out),
                        last_updated: self.last_updated.clone_value(),
                        next_cursor: clone_opt_string(&self.next_cursor),
                    };
                    Action::Finished(Ok(res))
                }
            },
            AddrPhase::Done => {
                proof {
                    assert(false);
                }
                Action::Finished(Err(String::new()))
            },
        }
    }
}

/// Law: a detail outcome that yields no collection symbol moves the
/// pipeline straight to the classification fetch — the stats fetch is never
/// attempted — and the floor price is already defaulted to zero.
pub proof fn lemma_no_symbol_skips_stats(
    pre: AddressJob,
    o: Result<Seq<u8>, Seq<char>>,
    post: AddressJob,
    act: Action,
)
    requires
        addr_wf(pre),
        pre.phase is Detail,
        addr_step(pre, o, post, act),
        symbol_facet(o) is None,
    ensures
        post.phase is Omb,
        post.cur_symbol is None,
        post.cur_floor == 0,
        act matches Action::Fetch(req) && req.url@ == omb_color_group_url(
            items_model(pre.items@)[pre.idx as int].inscription_id,
        ),
{
}

/// Law: the stats phase is entered only from a detail outcome that yielded
/// a collection symbol, and its fetch goes to that collection's stats URL.
pub proof fn lemma_stats_only_with_symbol(
    pre: AddressJob,
    o: Result<Seq<u8>, Seq<char>>,
    post: AddressJob,
    act: Action,
)
    requires
        addr_step(pre, o, post, act),
        post.phase is Stats,
    ensures
        pre.phase is Detail,
        symbol_facet(o) is Some,
        act matches Action::Fetch(req) && req.url@ == collection_stats_url(
            symbol_facet(o)->Some_0,
        ),
{
}

/// Law: pagination metadata rides through every step after the primary
/// fetch untouched, whatever the dependent outcomes, and a finished result
/// carries it verbatim.
pub proof fn lemma_metadata_passthrough(
    pre: AddressJob,
    o: Result<Seq<u8>, Seq<char>>,
    post: AddressJob,
    act: Action,
)
    requires
        addr_step(pre, o, post, act),
        !(pre.phase is Primary),
    ensures
        post.last_updated == pre.last_updated,
        post.next_cursor == pre.next_cursor,
        match act {
            Action::Finished(res) => match res {
                Ok(v) => v.last_updated == pre.last_updated && v.next_cursor == pre.next_cursor,
                Err(_) => true,
            },
            Action::Fetch(_) => true,
        },
{
}

/// Law: when every dependent call for the current item fails — no symbol
/// from the detail fetch, so no stats fetch, then a failing classification
/// fetch — the pipeline still appends exactly one record for the item, with
/// every facet at its default, leaves the earlier records untouched, and
/// moves on to the next item.
pub proof fn lemma_item_failure_defaults(
    j0: AddressJob,
    o1: Result<Seq<u8>, Seq<char>>,
    j1: AddressJob,
    a1: Action,
    o2: Result<Seq<u8>, Seq<char>>,
    j2: AddressJob,
    a2: Action,
)
    requires
        addr_wf(j0),
        j0.phase is Detail,
        addr_step(j0, o1, j1, a1),
        symbol_facet(o1) is None,
        addr_step(j1, o2, j2, a2),
        omb_facet(o2).0 is None,
        omb_facet(o2).1 is None,
    ensures
        j2.out@.len() == j0.out@.len() + 1,
        j2.out@.subrange(0, j0.out@.len() as int) == j0.out@,
        rec_matches(
            j2.out@.last(),
            items_model(j0.items@)[j0.idx as int],
            None,
            0,
            None,
            None,
        ),
        j2.idx == j0.idx + 1,
        j2.last_updated == j0.last_updated,
        j2.next_cursor == j0.next_cursor,
{
    assert(j2.out@.subrange(0, j0.out@.len() as int) =~= j0.out@);
}

/// Law: when the detail fetch yields a symbol, the item's record is built
/// from exactly its three dependent outcomes — the symbol, the floor price
/// the stats outcome reduces to, and the classification pair — whatever
/// those outcomes are.
pub proof fn lemma_item_full_enrichment(
    j0: AddressJob,
    o1: Result<Seq<u8>, Seq<char>>,
    j1: AddressJob,
    a1: Action,
    o2: Result<Seq<u8>, Seq<char>>,
    j2: AddressJob,
    a2: Action,
    o3: Result<Seq<u8>, Seq<char>>,
    j3: AddressJob,
    a3: Action,
)
    requires
        addr_wf(j0),
        j0.phase is Detail,
        addr_step(j0, o1, j1, a1),
        symbol_facet(o1) is Some,
        addr_step(j1, o2, j2, a2),
        addr_step(j2, o3, j3, a3),
    ensures
        j3.out@.len() == j0.out@.len() + 1,
        j3.out@.subrange(0, j0.out@.len() as int) == j0.out@,
        rec_matches(
            j3.out@.last(),
            items_model(j0.items@)[j0.idx as int],
            symbol_facet(o1),
            floor_price_facet(o2),
            omb_facet(o3).0,
            omb_facet(o3).1,
        ),
        j3.idx == j0.idx + 1,
{
    assert(j3.out@.subrange(0, j0.out@.len() as int) =~= j0.out@);
}

/// Law: a finished result set has one record per primary row, in the
/// primary order, each record carrying its own row's base columns.
pub proof fn lemma_result_order(
    pre: AddressJob,
    o: Result<Seq<u8>, Seq<char>>,
    post: AddressJob,
    act: Action,
)
    requires
        addr_wf(pre),
        addr_wf(post),
        addr_step(pre, o, post, act),
    ensures
        match act {
            Action::Finished(res) => match res {
                Ok(v) => {
                    &&& v.data@.len() == items_model(post.items@).len()
                    &&& forall|i: int|
                        0 <= i < v.data@.len() ==> rec_base_matches(
                            v.data@[i],
                            items_model(post.items@)[i],
                        )
                },
                Err(_) => true,
            },
            Action::Fetch(_) => true,
        },
{
}

/// Clones an optional string.
pub fn clone_opt_string(v: &Option<String>) -> (r: Option<String>)
    ensures
        r.deep_view() == v.deep_view(),
        r == *v,
{
    match v {
        Some(s) => Some(s.clone()),
        None => None,
    }
}

impl LastUpdated {
    /// Copies the snapshot descriptor.
    pub fn clone_value(&self) -> (r: LastUpdated)
        ensures
            r == *self,
    {
        LastUpdated { block_hash: self.block_hash.clone(), block_height: self.block_height }
    }
}

/// Copies a record list.
fn clone_records(v: &Vec<AddressInscription>) -> (r: Vec<AddressInscription>)
    ensures
        r@ == v@,
{
    let mut out: Vec<AddressInscription> = Vec::new();
    let n = v.len();
    let mut i: usize = 0;
    while i < n
        invariant
            0 <= i <= n,
            n == v@.len(),
            out@ =~= v@.subrange(0, i as int),
        decreases n - i,
    {
        let it = &v[i];
        out.push(
            AddressInscription {
                inscription_id: it.inscription_id.clone(),
                satoshis: it.satoshis.clone(),
                utxo_sat_offset: it.utxo_sat_offset,
                utxo_txid: it.utxo_txid.clone(),
                utxo_vout: it.utxo_vout,
                utxo_block_height: it.utxo_block_height,
                utxo_confirmations: it.utxo_confirmations,
                collection_symbol: clone_opt_string(&it.collection_symbol),
                floor_price: it.floor_price,
                omb_color: clone_opt_string(&it.omb_color),
                omb_floor_price: it.omb_floor_price,
            },
        );
        i = i + 1;
    }
    proof {
        assert(out@ =~= v@);
    }
    out
}

} // verus!
