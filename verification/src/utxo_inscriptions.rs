//! UTXO-keyed enrichment pipeline.
//!
//! One primary fetch returns the detail of a single transaction output,
//! which already embeds the candidate inscription list. Per item the
//! pipeline issues the same detail fetch as the address-keyed pipeline and
//! the same classification fetch, but no stats fetch: the floor price is
//! not part of the UTXO-keyed record.
use vstd::prelude::*;
use vstd::string::StringExecFns;

use crate::address_inscriptions::clone_opt_string;
use crate::auth::is_authorized;
use crate::common::LastUpdated;
use crate::common::LastUpdatedM;
use crate::common::omb_facet;
use crate::common::omb_facet_x;
use crate::common::outcome_model;
use crate::common::parse_last_updated_at;
use crate::common::parse_last_updated_at_x;
use crate::common::symbol_facet;
use crate::common::symbol_facet_x;
use crate::credential::CredentialStore;
use crate::lexer::TokM;
use crate::lexer::lex;
use crate::lexer::lex_bytes;
use crate::lexer::toks_model;
use crate::request::RequestSpec;
use crate::request::inscription_info_request;
use crate::request::inscription_info_url;
use crate::request::omb_color_group_request;
use crate::request::omb_color_group_url;
use crate::request::request_is;
use crate::request::tx_out_request;
use crate::request::tx_out_url;
use crate::spans::arr_elems;
use crate::spans::arr_elems_x;
use crate::spans::obj_fields;
use crate::spans::obj_fields_x;
use crate::spans::opt_str;
use crate::spans::opt_str_x;
use crate::spans::req_int;
use crate::spans::req_int_x;
use crate::spans::req_pos;
use crate::spans::req_pos_x;
use crate::spans::req_str;
use crate::spans::req_str_x;

verus! {

/// One inscription bound to the output, with its satoshi offset.
pub struct MaestroInscriptionAndOffset {
    pub inscription_id: String,
    pub offset: i64,
}

/// Mathematical image of `MaestroInscriptionAndOffset`.
pub struct InsOffM {
    pub inscription_id: Seq<char>,
    pub offset: int,
}

impl View for MaestroInscriptionAndOffset {
    type V = InsOffM;

    open spec fn view(&self) -> InsOffM {
        InsOffM { inscription_id: self.inscription_id@, offset: self.offset as int }
    }
}

/// One rune balance bound to the output.
pub struct MaestroRuneAndAmount {
    pub rune_id: String,
    pub amount: String,
}

/// Mathematical image of `MaestroRuneAndAmount`.
pub struct RuneAmtM {
    pub rune_id: Seq<char>,
    pub amount: Seq<char>,
}

impl View for MaestroRuneAndAmount {
    type V = RuneAmtM;

    open spec fn view(&self) -> RuneAmtM {
        RuneAmtM { rune_id: self.rune_id@, amount: self.amount@ }
    }
}

/// The detail of one transaction output.
pub struct MaestroTxOut {
    pub address: Option<String>,
    pub script_pubkey: String,
    pub satoshis: String,
    pub spending_tx: Option<String>,
    pub inscriptions: Vec<MaestroInscriptionAndOffset>,
    pub runes: Vec<MaestroRuneAndAmount>,
}

/// The mathematical image of an embedded inscription list.
pub open spec fn insoffs_model(v: Seq<MaestroInscriptionAndOffset>) -> Seq<InsOffM> {
    v.map_values(|x: MaestroInscriptionAndOffset| x@)
}

/// The mathematical image of a rune list.
pub open spec fn runes_model(v: Seq<MaestroRuneAndAmount>) -> Seq<RuneAmtM> {
    v.map_values(|x: MaestroRuneAndAmount| x@)
}

/// Mathematical image of `MaestroTxOut`.
pub struct TxOutM {
    pub address: Option<Seq<char>>,
    pub script_pubkey: Seq<char>,
    pub satoshis: Seq<char>,
    pub spending_tx: Option<Seq<char>>,
    pub inscriptions: Seq<InsOffM>,
    pub runes: Seq<RuneAmtM>,
}

impl View for MaestroTxOut {
    type V = TxOutM;

    open spec fn view(&self) -> TxOutM {
        TxOutM {
            address: self.address.deep_view(),
            script_pubkey: self.script_pubkey@,
            satoshis: self.satoshis@,
            spending_tx: self.spending_tx.deep_view(),
            inscriptions: insoffs_model(self.inscriptions@),
            runes: runes_model(self.runes@),
        }
    }
}

/// The envelope of the primary UTXO-keyed query.
pub struct MaestroTxOutIntoResponse {
    pub data: MaestroTxOut,
    pub last_updated: LastUpdated,
    pub next_cursor: Option<String>,
}

/// Mathematical image of `MaestroTxOutIntoResponse`.
pub struct TxOutRespM {
    pub data: TxOutM,
    pub last_updated: LastUpdatedM,
    pub next_cursor: Option<Seq<char>>,
}

impl View for MaestroTxOutIntoResponse {
    type V = TxOutRespM;

    open spec fn view(&self) -> TxOutRespM {
        TxOutRespM {
            data: self.data@,
            last_updated: self.last_updated@,
            next_cursor: self.next_cursor.deep_view(),
        }
    }
}

/// One enriched output record: the inscription id with its facets; no
/// floor price in this shape.
pub struct UtxoInscription {
    pub inscription_id: String,
    pub collection_symbol: Option<String>,
    pub omb_color: Option<String>,
    pub omb_floor_price: Option<i64>,
}

/// The enriched result set returned to the caller.
pub struct UtxoInscriptions {
    pub data: Vec<UtxoInscription>,
    pub last_updated: LastUpdated,
    pub next_cursor: Option<String>,
}

/// Parses one embedded inscription row at a token position.
pub open spec fn parse_insoff_at(toks: Seq<TokM>, pos: int) -> Option<InsOffM> {
    match obj_fields(toks, pos) {
        None => None,
        Some((fs, end)) => match req_str(toks, fs, "inscription_id"@) {
            None => None,
            Some(iid) => match req_int(toks, fs, "offset"@) {
                None => None,
                Some(off) => Some(InsOffM { inscription_id: iid, offset: off }),
            },
        },
    }
}

fn parse_insoff_at_x(toks: &Vec<crate::lexer::Tok>, pos: usize) -> (r: Option<
    MaestroInscriptionAndOffset,
>)
    ensures
        match r {
            Some(v) => parse_insoff_at(toks_model(toks@), pos as int) == Some(v@),
            None => parse_insoff_at(toks_model(toks@), pos as int) is None,
        },
{
    let (fields, _end) = match obj_fields_x(toks, pos) {
        None => {
            return None;
        },
        Some(p) => p,
    };
    let iid = match req_str_x(toks, &fields, "inscription_id") {
        None => {
            return None;
        },
        Some(s) => s,
    };
    let off = match req_int_x(toks, &fields, "offset") {
        None => {
            return None;
        },
        Some(v) => v,
    };
    Some(MaestroInscriptionAndOffset { inscription_id: iid, offset: off })
}

/// Parses the embedded inscription rows at the given positions, in order.
pub open spec fn parse_insoffs_from(toks: Seq<TokM>, elems: Seq<int>, i: int) -> Option<
    Seq<InsOffM>,
>
    decreases elems.len() - i,
{
    if i < 0 {
        None
    } else if i >= elems.len() {
        Some(Seq::empty())
    } else {
        match parse_insoff_at(toks, elems[i]) {
            None => None,
            Some(it) => match parse_insoffs_from(toks, elems, i + 1) {
                None => None,
                Some(rest) => Some(seq![it] + rest),
            },
        }
    }
}

fn parse_insoffs_x(toks: &Vec<crate::lexer::Tok>, elems: &Vec<usize>) -> (r: Option<
    Vec<MaestroInscriptionAndOffset>,
>)
    ensures
        match r {
            Some(v) => parse_insoffs_from(
                toks_model(toks@),
                elems@.map_values(|e: usize| e as int),
                0,
            ) == Some(insoffs_model(v@)),
            None => parse_insoffs_from(
                toks_model(toks@),
                elems@.map_values(|e: usize| e as int),
                0,
            ) is None,
        },
{
    let ghost em = elems@.map_values(|e: usize| e as int);
    let n = elems.len();
    let mut out: Vec<MaestroInscriptionAndOffset> = Vec::new();
    let mut i: usize = 0;
    while i < n
        invariant
            0 <= i <= n,
            n == elems@.len(),
            em == elems@.map_values(|e: usize| e as int),
            out@.len() == i,
            match parse_insoffs_from(toks_model(toks@), em, i as int) {
                Some(rest) => parse_insoffs_from(toks_model(toks@), em, 0) == Some(
                    insoffs_model(out@) + rest,
                ),
                None => parse_insoffs_from(toks_model(toks@), em, 0) is None,
            },
        decreases n - i,
    {
        proof {
            assert(em[i as int] == elems@[i as int] as int);
        }
        let it = match parse_insoff_at_x(toks, elems[i]) {
            None => {
                return None;
            },
            Some(v) => v,
        };
        let ghost outm = out@;
        out.push(it);
        proof {
            assert(insoffs_model(out@) =~= insoffs_model(outm).push(it@));
            if let Some(rest) = parse_insoffs_from(toks_model(toks@), em, i as int + 1) {
                assert(insoffs_model(outm) + (seq![it@] + rest) =~= insoffs_model(out@) + rest);
            }
        }
        i = i + 1;
    }
    proof {
        assert(insoffs_model(out@) + Seq::<InsOffM>::empty() =~= insoffs_model(out@));
    }
    Some(out)
}

/// Parses one rune row at a token position.
pub open spec fn parse_rune_at(toks: Seq<TokM>, pos: int) -> Option<RuneAmtM> {
    match obj_fields(toks, pos) {
        None => None,
        Some((fs, end)) => match req_str(toks, fs, "rune_id"@) {
            None => None,
            Some(rid) => match req_str(toks, fs, "amount"@) {
                None => None,
                Some(amt) => Some(RuneAmtM { rune_id: rid, amount: amt }),
            },
        },
    }
}

fn parse_rune_at_x(toks: &Vec<crate::lexer::Tok>, pos: usize) -> (r: Option<MaestroRuneAndAmount>)
    ensures
        match r {
            Some(v) => parse_rune_at(toks_model(toks@), pos as int) == Some(v@),
            None => parse_rune_at(toks_model(toks@), pos as int) is None,
        },
{
    let (fields, _end) = match obj_fields_x(toks, pos) {
        None => {
            return None;
        },
        Some(p) => p,
    };
    let rid = match req_str_x(toks, &fields, "rune_id") {
        None => {
            return None;
        },
        Some(s) => s,
    };
    let amt = match req_str_x(toks, &fields, "amount") {
        None => {
            return None;
        },
        Some(s) => s,
    };
    Some(MaestroRuneAndAmount { rune_id: rid, amount: amt })
}

/// Parses the rune rows at the given positions, in order.
pub open spec fn parse_runes_from(toks: Seq<TokM>, elems: Seq<int>, i: int) -> Option<
    Seq<RuneAmtM>,
>
    decreases elems.len() - i,
{
    if i < 0 {
        None
    } else if i >= elems.len() {
        Some(Seq::empty())
    } else {
        match parse_rune_at(toks, elems[i]) {
            None => None,
            Some(it) => match parse_runes_from(toks, elems, i + 1) {
                None => None,
                Some(rest) => Some(seq![it] + rest),
            },
        }
    }
}

fn parse_runes_x(toks: &Vec<crate::lexer::Tok>, elems: &Vec<usize>) -> (r: Option<
    Vec<MaestroRuneAndAmount>,
>)
    ensures
        match r {
            Some(v) => parse_runes_from(
                toks_model(toks@),
                elems@.map_values(|e: usize| e as int),
                0,
            ) == Some(runes_model(v@)),
            None => parse_runes_from(
                toks_model(toks@),
                elems@.map_values(|e: usize| e as int),
                0,
            ) is None,
        },
{
    let ghost em = elems@.map_values(|e: usize| e as int);
    let n = elems.len();
    let mut out: Vec<MaestroRuneAndAmount> = Vec::new();
    let mut i: usize = 0;
    while i < n
        invariant
            0 <= i <= n,
            n == elems@.len(),
            em == elems@.map_values(|e: usize| e as int),
            out@.len() == i,
            match parse_runes_from(toks_model(toks@), em, i as int) {
                Some(rest) => parse_runes_from(toks_model(toks@), em, 0) == Some(
                    runes_model(out@) + rest,
                ),
                None => parse_runes_from(toks_model(toks@), em, 0) is None,
            },
        decreases n - i,
    {
        proof {
            assert(em[i as int] == elems@[i as int] as int);
        }
        let it = match parse_rune_at_x(toks, elems[i]) {
            None => {
                return None;
            },
            Some(v) => v,
        };
        let ghost outm = out@;
        out.push(it);
        proof {
            assert(runes_model(out@) =~= runes_model(outm).push(it@));
            if let Some(rest) = parse_runes_from(toks_model(toks@), em, i as int + 1) {
                assert(runes_model(outm) + (seq![it@] + rest) =~= runes_model(out@) + rest);
            }
        }
        i = i + 1;
    }
    proof {
        assert(runes_model(out@) + Seq::<RuneAmtM>::empty() =~= runes_model(out@));
    }
    Some(out)
}

/// Parses the output-detail object at a token position.
pub open spec fn parse_tx_out_at(toks: Seq<TokM>, pos: int) -> Option<TxOutM> {
    match obj_fields(toks, pos) {
        None => None,
        Some((fs, end)) => match opt_str(toks, fs, "address"@) {
            None => None,
            Some(addr) => match req_str(toks, fs, "script_pubkey"@) {
                None => None,
                Some(spk) => match req_str(toks, fs, "satoshis"@) {
                    None => None,
                    Some(sat) => match opt_str(toks, fs, "spending_tx"@) {
                        None => None,
                        Some(stx) => match req_pos(fs, "inscriptions"@) {
                            None => None,
                            Some(ip) => match arr_elems(toks, ip) {
                                None => None,
                                Some((ielems, iend)) => match parse_insoffs_from(
                                    toks,
                                    ielems,
                                    0,
                                ) {
                                    None => None,
                                    Some(inss) => match req_pos(fs, "runes"@) {
                                        None => None,
                                        Some(rp) => match arr_elems(toks, rp) {
                                            None => None,
                                            Some((relems, rend)) => match parse_runes_from(
                                                toks,
                                                relems,
                                                0,
                                            ) {
                                                None => None,
                                                Some(runes) => Some(
                                                    TxOutM {
                                                        address: addr,
                                                        script_pubkey: spk,
                                                        satoshis: sat,
                                                        spending_tx: stx,
                                                        inscriptions: inss,
                                                        runes: runes,
                                                    },
                                                ),
                                            },
                                        },
                                    },
                                },
                            },
                        },
                    },
                },
            },
        },
    }
}

fn parse_tx_out_at_x(toks: &Vec<crate::lexer::Tok>, pos: usize) -> (r: Option<MaestroTxOut>)
    ensures
        match r {
            Some(v) => parse_tx_out_at(toks_model(toks@), pos as int) == Some(v@),
            None => parse_tx_out_at(toks_model(toks@), pos as int) is None,
        },
{
    let (fields, _end) = match obj_fields_x(toks, pos) {
        None => {
            return None;
        },
        Some(p) => p,
    };
    let addr = match opt_str_x(toks, &fields, "address") {
        None => {
            return None;
        },
        Some(v) => v,
    };
    let spk = match req_str_x(toks, &fields, "script_pubkey") {
        None => {
            return None;
        },
        Some(s) => s,
    };
    let sat = match req_str_x(toks, &fields, "satoshis") {
        None => {
            return None;
        },
        Some(s) => s,
    };
    let stx = match opt_str_x(toks, &fields, "spending_tx") {
        None => {
            return None;
        },
        Some(v) => v,
    };
    let ip = match req_pos_x(&fields, "inscriptions") {
        None => {
            return None;
        },
        Some(p) => p,
    };
    let (ielems, _iend) = match arr_elems_x(toks, ip) {
        None => {
            return None;
        },
        Some(p) => p,
    };
    let inss = match parse_insoffs_x(toks, &ielems) {
        None => {
            return None;
        },
        Some(v) => v,
    };
    let rp = match req_pos_x(&fields, "runes") {
        None => {
            return None;
        },
        Some(p) => p,
    };
    let (relems, _rend) = match arr_elems_x(toks, rp) {
        None => {
            return None;
        },
        Some(p) => p,
    };
    let runes = match parse_runes_x(toks, &relems) {
        None => {
            return None;
        },
        Some(v) => v,
    };
    Some(
        MaestroTxOut {
            address: addr,
            script_pubkey: spk,
            satoshis: sat,
            spending_tx: stx,
            inscriptions: inss,
            runes: runes,
        },
    )
}

/// Parses the primary UTXO response from its token sequence.
pub open spec fn parse_tx_out_toks(toks: Seq<TokM>) -> Option<TxOutRespM> {
    match obj_fields(toks, 0) {
        None => None,
        Some((fs, end)) => if end != toks.len() {
            None
        } else {
            match req_pos(fs, "data"@) {
                None => None,
                Some(dp) => match parse_tx_out_at(toks, dp) {
                    None => None,
                    Some(data) => match req_pos(fs, "last_updated"@) {
                        None => None,
                        Some(lp) => match parse_last_updated_at(toks, lp) {
                            None => None,
                            Some(lu) => match opt_str(toks, fs, "next_cursor"@) {
                                None => None,
                                Some(nc) => Some(
                                    TxOutRespM { data, last_updated: lu, next_cursor: nc },
                                ),
                            },
                        },
                    },
                },
            }
        },
    }
}

/// Parses the primary UTXO response from raw bytes.
pub open spec fn parse_tx_out(bytes: Seq<u8>) -> Option<TxOutRespM> {
    match lex(bytes) {
        None => None,
        Some(toks) => parse_tx_out_toks(toks),
    }
}

/// Parses one primary UTXO response; returns exactly what `parse_tx_out`
/// assigns to the bytes.
pub fn parse_tx_out_x(bytes: &Vec<u8>) -> (r: Option<MaestroTxOutIntoResponse>)
    ensures
        match r {
            Some(v) => parse_tx_out(bytes@) == Some(v@),
            None => parse_tx_out(bytes@) is None,
        },
{
    let toks = match lex_bytes(bytes) {
        None => {
            return None;
        },
        Some(t) => t,
    };
    let (fields, end) = match obj_fields_x(&toks, 0) {
        None => {
            return None;
        },
        Some(p) => p,
    };
    if end != toks.len() {
        return None;
    }
    let dp = match req_pos_x(&fields, "data") {
        None => {
            return None;
        },
        Some(p) => p,
    };
    let data = match parse_tx_out_at_x(&toks, dp) {
        None => {
            return None;
        },
        Some(v) => v,
    };
    let lp = match req_pos_x(&fields, "last_updated") {
        None => {
            return None;
        },
        Some(p) => p,
    };
    let lu = match parse_last_updated_at_x(&toks, lp) {
        None => {
            return None;
        },
        Some(v) => v,
    };
    let nc = match opt_str_x(&toks, &fields, "next_cursor") {
        None => {
            return None;
        },
        Some(s) => s,
    };
    Some(MaestroTxOutIntoResponse { data, last_updated: lu, next_cursor: nc })
}

/// Where the UTXO pipeline stands.
#[derive(Clone, Copy)]
pub enum UtxoPhase {
    /// Awaiting the primary output detail.
    Primary,
    /// Awaiting the detail fetch of the current item.
    Detail,
    /// Awaiting the classification fetch of the current item.
    Omb,
    /// Finished, well or badly.
    Done,
}

/// What the host must do next.
pub enum UtxoAction {
    /// Perform this outbound request and hand the outcome back.
    Fetch(RequestSpec),
    /// The call is complete; return this to the caller.
    Finished(Result<UtxoInscriptions, String>),
}

/// The UTXO-keyed pipeline state between steps.
pub struct UtxoJob {
    pub api_key: String,
    pub items: Vec<MaestroInscriptionAndOffset>,
    pub last_updated: LastUpdated,
    pub next_cursor: Option<String>,
    pub idx: usize,
    pub phase: UtxoPhase,
    pub cur_symbol: Option<String>,
    pub out: Vec<UtxoInscription>,
}

/// A record is its item's inscription id zipped with the facets.
pub open spec fn utxo_rec_matches(
    r: UtxoInscription,
    it: InsOffM,
    sym: Option<Seq<char>>,
    oc: Option<Seq<char>>,
    ofp: Option<int>,
) -> bool {
    &&& r.inscription_id@ == it.inscription_id
    &&& r.collection_symbol.deep_view() == sym
    &&& r.omb_color.deep_view() == oc
    &&& match ofp {
        Some(v) => r.omb_floor_price matches Some(x) && x as int == v,
        None => r.omb_floor_price is None,
    }
}

/// Well-formedness of the pipeline state between steps.
pub open spec fn utxo_wf(j: UtxoJob) -> bool {
    &&& j.idx <= j.items@.len()
    &&& j.out@.len() == j.idx
    &&& (j.phase is Detail || j.phase is Omb) ==> j.idx < j.items@.len()
    &&& j.phase is Primary ==> j.idx == 0 && j.items@.len() == 0
    &&& j.phase is Done ==> j.idx == j.items@.len()
    &&& forall|i: int|
        0 <= i < j.out@.len() ==> j.out@[i].inscription_id@ == insoffs_model(
            j.items@,
        )[i].inscription_id
}

/// The fields a step never touches once the primary response is in.
pub open spec fn utxo_base_unchanged(pre: UtxoJob, post: UtxoJob) -> bool {
    &&& post.api_key == pre.api_key
    &&& post.items == pre.items
    &&& post.last_updated == pre.last_updated
    &&& post.next_cursor == pre.next_cursor
}

/// The step relation on the primary outcome.
pub open spec fn utxo_step_primary(
    pre: UtxoJob,
    o: Result<Seq<u8>, Seq<char>>,
    post: UtxoJob,
    act: UtxoAction,
) -> bool {
    match o {
        Err(e) => {
            &&& utxo_base_unchanged(pre, post)
            &&& post.idx == pre.idx && post.out == pre.out
            &&& post.phase is Done
            &&& act matches UtxoAction::Finished(res) && res matches Err(m) && m@
                == "HTTP error: "@ + e
        },
        Ok(b) => match parse_tx_out(b) {
            None => {
                &&& utxo_base_unchanged(pre, post)
                &&& post.idx == pre.idx && post.out == pre.out
                &&& post.phase is Done
                &&& act matches UtxoAction::Finished(res) && res matches Err(m) && m@
                    == "Failed to parse: invalid response body"@
            },
            Some(page) => {
                &&& post.api_key == pre.api_key
                &&& insoffs_model(post.items@) == page.data.inscriptions
                &&& post.last_updated@ == page.last_updated
                &&& post.next_cursor.deep_view() == page.next_cursor
                &&& post.idx == 0
                &&& post.out@.len() == 0
                &&& if page.data.inscriptions.len() == 0 {
                    &&& post.phase is Done
                    &&& act matches UtxoAction::Finished(res) && res matches Ok(v) && {
                        &&& v.data@.len() == 0
                        &&& v.last_updated@ == page.last_updated
                        &&& v.next_cursor.deep_view() == page.next_cursor
                    }
                } else {
                    &&& post.phase is Detail
                    &&& act matches UtxoAction::Fetch(req) && request_is(
                        req,
                        pre.api_key@,
                        inscription_info_url(page.data.inscriptions[0].inscription_id),
                    )
                }
            },
        },
    }
}

/// The step relation on a detail outcome: the symbol facet is recorded and
/// the classification fetch follows at once — there is no stats fetch in
/// this pipeline.
pub open spec fn utxo_step_detail(
    pre: UtxoJob,
    o: Result<Seq<u8>, Seq<char>>,
    post: UtxoJob,
    act: UtxoAction,
) -> bool {
    &&& utxo_base_unchanged(pre, post)
    &&& post.idx == pre.idx && post.out == pre.out
    &&& post.phase is Omb
    &&& post.cur_symbol.deep_view() == symbol_facet(o)
    &&& act matches UtxoAction::Fetch(req) && request_is(
        req,
        pre.api_key@,
        omb_color_group_url(insoffs_model(pre.items@)[pre.idx as int].inscription_id),
    )
}

/// The step relation on a classification outcome.
pub open spec fn utxo_step_omb(
    pre: UtxoJob,
    o: Result<Seq<u8>, Seq<char>>,
    post: UtxoJob,
    act: UtxoAction,
) -> bool {
    &&& utxo_base_unchanged(pre, post)
    &&& post.out@.len() == pre.out@.len() + 1
    &&& post.out@ == pre.out@.push(post.out@.last())
    &&& utxo_rec_matches(
        post.out@.last(),
        insoffs_model(pre.items@)[pre.idx as int],
        pre.cur_symbol.deep_view(),
        omb_facet(o).0,
        omb_facet(o).1,
    )
    &&& post.idx == pre.idx + 1
    &&& if pre.idx + 1 < pre.items@.len() {
        &&& post.phase is Detail
        &&& act matches UtxoAction::Fetch(req) && request_is(
            req,
            pre.api_key@,
            inscription_info_url(insoffs_model(pre.items@)[pre.idx as int + 1].inscription_id),
        )
    } else {
        &&& post.phase is Done
        &&& act matches UtxoAction::Finished(res) && res matches Ok(v) && {
            &&& v.data@ == post.out@
            &&& v.last_updated == pre.last_updated
            &&& v.next_cursor == pre.next_cursor
        }
    }
}

/// The full step relation of the UTXO-keyed pipeline.
pub open spec fn utxo_step(
    pre: UtxoJob,
    o: Result<Seq<u8>, Seq<char>>,
    post: UtxoJob,
    act: UtxoAction,
) -> bool {
    match pre.phase {
        UtxoPhase::Primary => utxo_step_primary(pre, o, post, act),
        UtxoPhase::Detail => utxo_step_detail(pre, o, post, act),
        UtxoPhase::Omb => utxo_step_omb(pre, o, post, act),
        UtxoPhase::Done => false,
    }
}

/// Entry point of the UTXO-keyed enrichment: checks authorization, reads
/// the credential, and hands back the pipeline state with the primary
/// request for the host to perform. Rejects an unauthorized caller or an
/// unset credential before any outbound work, with no state touched.
pub fn get_utxo_inscriptions(
    store: &CredentialStore,
    caller: &str,
    tx_hash: &str,
    output_index: &str,
) -> (r: Result<(UtxoJob, RequestSpec), String>)
    ensures
        r is Ok <==> is_authorized(caller@) && store.key@.len() > 0,
        !is_authorized(caller@) ==> (r matches Err(m) && m@ == "Unauthorized"@),
        is_authorized(caller@) && store.key@.len() == 0 ==> (r matches Err(m) && m@
            == "API key not set"@),
        r matches Ok(p) ==> {
            &&& utxo_wf(p.0)
            &&& p.0.phase is Primary
            &&& p.0.api_key@ == store.key@
            &&& request_is(p.1, store.key@, tx_out_url(tx_hash@, output_index@))
        },
{
    match crate::auth::check_authorization(caller) {
        Err(m) => {
            return Err(m);
        },
        Ok(u) => u,
    };
    let api_key = match store.current_key() {
        Err(m) => {
            return Err(m);
        },
        Ok(k) => k,
    };
    let req = tx_out_request(tx_hash, output_index, api_key.as_str());
    let job = UtxoJob {
        api_key,
        items: Vec::new(),
        last_updated: LastUpdated { block_hash: String::new(), block_height: 0 },
        next_cursor: None,
        idx: 0,
        phase: UtxoPhase::Primary,
        cur_symbol: None,
        out: Vec::new(),
    };
    Ok((job, req))
}

impl UtxoJob {
    /// Feeds one fetch outcome to the pipeline; the returned action is the
    /// next fetch to perform or the finished result. The step taken is
    /// exactly `utxo_step`.
    pub fn on_response(&mut self, outcome: Result<Vec<u8>, String>) -> (act: UtxoAction)
        requires
            utxo_wf(*old(self)),
            !(old(self).phase is Done),
        ensures
            utxo_wf(*final(self)),
            utxo_step(*old(self), outcome_model(outcome), *final(self), act),
    {
        match self.phase {
            UtxoPhase::Primary => {
                let body = match outcome {
                    Err(e) => {
                        self.phase = UtxoPhase::Done;
                        return UtxoAction::Finished(
                            Err(String::from_str("HTTP error: ").concat(e.as_str())),
                        );
                    },
                    Ok(b) => b,
                };
                let page = match parse_tx_out_x(&body) {
                    None => {
                        self.phase = UtxoPhase::Done;
                        return UtxoAction::Finished(
                            Err(String::from_str("Failed to parse: invalid response body")),
                        );
                    },
                    Some(p) => p,
                };
                self.items = page.data.inscriptions;
                self.last_updated = page.last_updated;
                self.next_cursor = page.next_cursor;
                self.idx = 0;
                self.out = Vec::new();
                if self.items.len() == 0 {
                    self.phase = UtxoPhase::Done;
                    let res = UtxoInscriptions {
                        data: Vec::new(),
                        last_updated: self.last_updated.clone_value(),
                        next_cursor: clone_opt_string(&self.next_cursor),
                    };
                    UtxoAction::Finished(Ok(res))
                } else {
                    self.phase = UtxoPhase::Detail;
                    UtxoAction::Fetch(
                        inscription_info_request(
                            self.items[0].inscription_id.as_str(),
                            self.api_key.as_str(),
                        ),
                    )
                }
            },
            UtxoPhase::Detail => {
                self.cur_symbol = symbol_facet_x(&outcome);
                self.phase = UtxoPhase::Omb;
                UtxoAction::Fetch(
                    omb_color_group_request(
                        self.items[self.idx].inscription_id.as_str(),
                        self.api_key.as_str(),
                    ),
                )
            },
            UtxoPhase::Omb => {
                let (oc, ofp) = omb_facet_x(&outcome);
                let it = &self.items[self.idx];
                let rec = UtxoInscription {
                    inscription_id: it.inscription_id.clone(),
                    collection_symbol: clone_opt_string(&self.cur_symbol),
                    omb_color: oc,
                    omb_floor_price: ofp,
                };
                self.out.push(rec);
                let n = self.items.len();
                self.idx = self.idx + 1;
                if self.idx < n {
                    self.phase = UtxoPhase::Detail;
                    UtxoAction::Fetch(
                        inscription_info_request(
                            self.items[self.idx].inscription_id.as_str(),
                            self.api_key.as_str(),
                        ),
                    )
                } else {
                    self.phase = UtxoPhase::Done;
                    let res = UtxoInscriptions {
                        data: clone_utxo_records(&self.out),
                        last_updated: self.last_updated.clone_value(),
                        next_cursor: clone_opt_string(&self.next_cursor),
                    };
                    UtxoAction::Finished(Ok(res))
                }
            },
            UtxoPhase::Done => {
                proof {
                    assert(false);
                }
                UtxoAction::Finished(Err(String::new()))
            },
        }
    }
}

fn clone_utxo_records(v: &Vec<UtxoInscription>) -> (r: Vec<UtxoInscription>)
    ensures
        r@ == v@,
{
    let mut out: Vec<UtxoInscription> = Vec::new();
    let n = v.len();
    let mut i: usize = 0;
    while i < n
        invariant
            0 <= i <= n,
            n == v@.len(),
            out@ =~= v@.subrange(0, i as int),
        decreases n - i,
    {
        let it = &v[i];
        out.push(
            UtxoInscription {
                inscription_id: it.inscription_id.clone(),
                collection_symbol: clone_opt_string(&it.collection_symbol),
                omb_color: clone_opt_string(&it.omb_color),
                omb_floor_price: it.omb_floor_price,
            },
        );
        i = i + 1;
    }
    proof {
        assert(out@ =~= v@);
    }
    out
}

/// Law: pagination metadata rides through every step after the primary
/// fetch untouched, whatever the dependent outcomes, and a finished result
/// carries it verbatim.
pub proof fn lemma_utxo_metadata_passthrough(
    pre: UtxoJob,
    o: Result<Seq<u8>, Seq<char>>,
    post: UtxoJob,
    act: UtxoAction,
)
    requires
        utxo_step(pre, o, post, act),
        !(pre.phase is Primary),
    ensures
        post.last_updated == pre.last_updated,
        post.next_cursor == pre.next_cursor,
        match act {
            UtxoAction::Finished(res) => match res {
                Ok(v) => v.last_updated == pre.last_updated && v.next_cursor == pre.next_cursor,
                Err(_) => true,
            },
            UtxoAction::Fetch(_) => true,
        },
{
}

/// Law: every fetch this pipeline ever asks for is the primary output
/// detail, an item detail, or a classification lookup — a stats fetch is
/// never attempted, so no record of it carries a floor price.
pub proof fn lemma_utxo_never_fetches_stats(
    pre: UtxoJob,
    o: Result<Seq<u8>, Seq<char>>,
    post: UtxoJob,
    act: UtxoAction,
)
    requires
        utxo_step(pre, o, post, act),
    ensures
        match act {
            UtxoAction::Fetch(req) => (exists|id: Seq<char>|
                req.url@ == inscription_info_url(id) || req.url@ == omb_color_group_url(id)),
            UtxoAction::Finished(_) => true,
        },
{
    match pre.phase {
        UtxoPhase::Primary => {
            if let UtxoAction::Fetch(req) = act {
                match o {
                    Ok(b) => {
                        if let Some(page) = parse_tx_out(b) {
                            let id = page.data.inscriptions[0].inscription_id;
                            assert(req.url@ == inscription_info_url(id));
                        }
                    },
                    Err(_) => {},
                }
            }
        },
        UtxoPhase::Detail => {
            if let UtxoAction::Fetch(req) = act {
                let id = insoffs_model(pre.items@)[pre.idx as int].inscription_id;
                assert(req.url@ == omb_color_group_url(id));
            }
        },
        UtxoPhase::Omb => {
            if let UtxoAction::Fetch(req) = act {
                let id = insoffs_model(pre.items@)[pre.idx as int + 1].inscription_id;
                assert(req.url@ == inscription_info_url(id));
            }
        },
        UtxoPhase::Done => {},
    }
}

/// Law: a finished result set has one record per embedded inscription, in
/// the embedded order, each record carrying its own inscription id.
pub proof fn lemma_utxo_result_order(
    pre: UtxoJob,
    o: Result<Seq<u8>, Seq<char>>,
    post: UtxoJob,
    act: UtxoAction,
)
    requires
        utxo_wf(pre),
        utxo_wf(post),
        utxo_step(pre, o, post, act),
    ensures
        match act {
            UtxoAction::Finished(res) => match res {
                Ok(v) => {
                    &&& v.data@.len() == insoffs_model(post.items@).len()
                    &&& forall|i: int|
                        0 <= i < v.data@.len() ==> v.data@[i].inscription_id@ == insoffs_model(
                            post.items@,
                        )[i].inscription_id
                },
                Err(_) => true,
            },
            UtxoAction::Fetch(_) => true,
        },
{
}

} // verus!
