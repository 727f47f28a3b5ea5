//! Shared upstream response shapes, their parsers, and the per-facet
//! reduction that absorbs dependent-call failures.
//!
//! Every field name is fixed by the upstream contract and preserved exactly
//! on parse; members the library does not read are tolerated and skipped.
use vstd::prelude::*;
use vstd::string::StrSliceExecFns;
use vstd::string::StringExecFns;

use crate::lexer::TokM;
use crate::lexer::lex;
use crate::lexer::lex_bytes;
use crate::lexer::toks_model;
use crate::spans::obj_fields;
use crate::spans::obj_fields_x;
use crate::spans::opt_str;
use crate::spans::opt_str_x;
use crate::spans::req_int;
use crate::spans::req_int_x;
use crate::spans::req_pos;
use crate::spans::req_pos_x;
use crate::spans::req_str;
use crate::spans::req_str_x;

verus! {

/// The upstream snapshot a response was served from.
pub struct LastUpdated {
    pub block_hash: String,
    pub block_height: i64,
}

/// Mathematical image of `LastUpdated`.
pub struct LastUpdatedM {
    pub block_hash: Seq<char>,
    pub block_height: int,
}

impl View for LastUpdated {
    type V = LastUpdatedM;

    open spec fn view(&self) -> LastUpdatedM {
        LastUpdatedM { block_hash: self.block_hash@, block_height: self.block_height as int }
    }
}

/// Detail record of one inscription.
pub struct MaestroInscriptionInfo {
    pub collection_symbol: Option<String>,
}

/// Envelope of the detail fetch.
pub struct MaestroInscriptionInfoResponse {
    pub data: MaestroInscriptionInfo,
    pub last_updated: LastUpdated,
    pub next_cursor: Option<String>,
}

/// Mathematical image of `MaestroInscriptionInfoResponse`.
pub struct InfoRespM {
    pub collection_symbol: Option<Seq<char>>,
    pub last_updated: LastUpdatedM,
    pub next_cursor: Option<Seq<char>>,
}

impl View for MaestroInscriptionInfoResponse {
    type V = InfoRespM;

    open spec fn view(&self) -> InfoRespM {
        InfoRespM {
            collection_symbol: self.data.collection_symbol.deep_view(),
            last_updated: self.last_updated@,
            next_cursor: self.next_cursor.deep_view(),
        }
    }
}

/// Stats record of one collection.
pub struct MaestroCollectionStats {
    pub floor_price: Option<String>,
}

/// Envelope of the stats fetch.
pub struct MaestroCollectionStatsResponse {
    pub data: MaestroCollectionStats,
    pub last_updated: LastUpdated,
    pub next_cursor: Option<String>,
}

/// Mathematical image of `MaestroCollectionStatsResponse`.
pub struct StatsRespM {
    pub floor_price: Option<Seq<char>>,
    pub last_updated: LastUpdatedM,
    pub next_cursor: Option<Seq<char>>,
}

impl View for MaestroCollectionStatsResponse {
    type V = StatsRespM;

    open spec fn view(&self) -> StatsRespM {
        StatsRespM {
            floor_price: self.data.floor_price.deep_view(),
            last_updated: self.last_updated@,
            next_cursor: self.next_cursor.deep_view(),
        }
    }
}

/// Classification record of one inscription: both parts come from one fetch
/// and are present or absent together.
pub struct MaestroOmbColorGroupData {
    pub omb_color: String,
    pub omb_floor_price: i64,
}

/// Envelope of the classification fetch.
pub struct MaestroOmbColorGroup {
    pub data: MaestroOmbColorGroupData,
}

/// Mathematical image of `MaestroOmbColorGroup`.
pub struct OmbM {
    pub omb_color: Seq<char>,
    pub omb_floor_price: int,
}

impl View for MaestroOmbColorGroup {
    type V = OmbM;

    open spec fn view(&self) -> OmbM {
        OmbM {
            omb_color: self.data.omb_color@,
            omb_floor_price: self.data.omb_floor_price as int,
        }
    }
}

/// Parses the `last_updated` object at a token position.
pub open spec fn parse_last_updated_at(toks: Seq<TokM>, pos: int) -> Option<LastUpdatedM> {
    match obj_fields(toks, pos) {
        None => None,
        Some((fs, end)) => match req_str(toks, fs, "block_hash"@) {
            None => None,
            Some(bh) => match req_int(toks, fs, "block_height"@) {
                None => None,
                Some(h) => Some(LastUpdatedM { block_hash: bh, block_height: h }),
            },
        },
    }
}

pub(crate) fn parse_last_updated_at_x(toks: &Vec<crate::lexer::Tok>, pos: usize) -> (r: Option<
    LastUpdated,
>)
    ensures
        match r {
            Some(v) => parse_last_updated_at(toks_model(toks@), pos as int) == Some(v@),
            None => parse_last_updated_at(toks_model(toks@), pos as int) is None,
        },
{
    let (fields, _end) = match obj_fields_x(toks, pos) {
        None => {
            return None;
        },
        Some(p) => p,
    };
    let bh = match req_str_x(toks, &fields, "block_hash") {
        None => {
            return None;
        },
        Some(s) => s,
    };
    let h = match req_int_x(toks, &fields, "block_height") {
        None => {
            return None;
        },
        Some(v) => v,
    };
    Some(LastUpdated { block_hash: bh, block_height: h })
}

/// Parses a detail response from its token sequence: an object holding a
/// `data` object with an optional `collection_symbol`, a `last_updated`
/// snapshot, and an optional `next_cursor`.
pub open spec fn parse_info_toks(toks: Seq<TokM>) -> Option<InfoRespM> {
    match obj_fields(toks, 0) {
        None => None,
        Some((fs, end)) => if end != toks.len() {
            None
        } else {
            match req_pos(fs, "data"@) {
                None => None,
                Some(dp) => match obj_fields(toks, dp) {
                    None => None,
                    Some((dfs, dend)) => match opt_str(toks, dfs, "collection_symbol"@) {
                        None => None,
                        Some(sym) => match req_pos(fs, "last_updated"@) {
                            None => None,
                            Some(lp) => match parse_last_updated_at(toks, lp) {
                                None => None,
                                Some(lu) => match opt_str(toks, fs, "next_cursor"@) {
                                    None => None,
                                    Some(nc) => Some(
                                        InfoRespM {
                                            collection_symbol: sym,
                                            last_updated: lu,
                                            next_cursor: nc,
                                        },
                                    ),
                                },
                            },
                        },
                    },
                },
            }
        },
    }
}

/// Parses a detail response from raw bytes.
pub open spec fn parse_info(bytes: Seq<u8>) -> Option<InfoRespM> {
    match lex(bytes) {
        None => None,
        Some(toks) => parse_info_toks(toks),
    }
}

/// Parses one detail response; returns exactly what `parse_info` assigns to
/// the bytes.
pub fn parse_info_x(bytes: &Vec<u8>) -> (r: Option<MaestroInscriptionInfoResponse>)
    ensures
        match r {
            Some(v) => parse_info(bytes@) == Some(v@),
            None => parse_info(bytes@) is None,
        },
{
    let toks = match lex_bytes(bytes) {
        None => {
            return None;
        },
        Some(t) => t,
    };
    let (fields, end) = match obj_fields_x(&toks, 0) {
        None => {
            return None;
        },
        Some(p) => p,
    };
    if end != toks.len() {
        return None;
    }
    let dp = match req_pos_x(&fields, "data") {
        None => {
            return None;
        },
        Some(p) => p,
    };
    let (dfields, _dend) = match obj_fields_x(&toks, dp) {
        None => {
            return None;
        },
        Some(p) => p,
    };
    let sym = match opt_str_x(&toks, &dfields, "collection_symbol") {
        None => {
            return None;
        },
        Some(s) => s,
    };
    let lp = match req_pos_x(&fields, "last_updated") {
        None => {
            return None;
        },
        Some(p) => p,
    };
    let lu = match parse_last_updated_at_x(&toks, lp) {
        None => {
            return None;
        },
        Some(v) => v,
    };
    let nc = match opt_str_x(&toks, &fields, "next_cursor") {
        None => {
            return None;
        },
        Some(s) => s,
    };
    Some(
        MaestroInscriptionInfoResponse {
            data: MaestroInscriptionInfo { collection_symbol: sym },
            last_updated: lu,
            next_cursor: nc,
        },
    )
}

/// Parses a stats response from its token sequence.
pub open spec fn parse_stats_toks(toks: Seq<TokM>) -> Option<StatsRespM> {
    match obj_fields(toks, 0) {
        None => None,
        Some((fs, end)) => if end != toks.len() {
            None
        } else {
            match req_pos(fs, "data"@) {
                None => None,
                Some(dp) => match obj_fields(toks, dp) {
                    None => None,
                    Some((dfs, dend)) => match opt_str(toks, dfs, "floor_price"@) {
                        None => None,
                        Some(fp) => match req_pos(fs, "last_updated"@) {
                            None => None,
                            Some(lp) => match parse_last_updated_at(toks, lp) {
                                None => None,
                                Some(lu) => match opt_str(toks, fs, "next_cursor"@) {
                                    None => None,
                                    Some(nc) => Some(
                                        StatsRespM {
                                            floor_price: fp,
                                            last_updated: lu,
                                            next_cursor: nc,
                                        },
                                    ),
                                },
                            },
                        },
                    },
                },
            }
        },
    }
}

/// Parses a stats response from raw bytes.
pub open spec fn parse_stats(bytes: Seq<u8>) -> Option<StatsRespM> {
    match lex(bytes) {
        None => None,
        Some(toks) => parse_stats_toks(toks),
    }
}

/// Parses one stats response; returns exactly what `parse_stats` assigns to
/// the bytes.
pub fn parse_stats_x(bytes: &Vec<u8>) -> (r: Option<MaestroCollectionStatsResponse>)
    ensures
        match r {
            Some(v) => parse_stats(bytes@) == Some(v@),
            None => parse_stats(bytes@) is None,
        },
{
    let toks = match lex_bytes(bytes) {
        None => {
            return None;
        },
        Some(t) => t,
    };
    let (fields, end) = match obj_fields_x(&toks, 0) {
        None => {
            return None;
        },
        Some(p) => p,
    };
    if end != toks.len() {
        return None;
    }
    let dp = match req_pos_x(&fields, "data") {
        None => {
            return None;
        },
        Some(p) => p,
    };
    let (dfields, _dend) = match obj_fields_x(&toks, dp) {
        None => {
            return None;
        },
        Some(p) => p,
    };
    let fp = match opt_str_x(&toks, &dfields, "floor_price") {
        None => {
            return None;
        },
        Some(s) => s,
    };
    let lp = match req_pos_x(&fields, "last_updated") {
        None => {
            return None;
        },
        Some(p) => p,
    };
    let lu = match parse_last_updated_at_x(&toks, lp) {
        None => {
            return None;
        },
        Some(v) => v,
    };
    let nc = match opt_str_x(&toks, &fields, "next_cursor") {
        None => {
            return None;
        },
        Some(s) => s,
    };
    Some(
        MaestroCollectionStatsResponse {
            data: MaestroCollectionStats { floor_price: fp },
            last_updated: lu,
            next_cursor: nc,
        },
    )
}

/// Parses a classification response from its token sequence: an object
/// holding a `data` object with a required `color` and a required
/// `floor_price` integer.
pub open spec fn parse_omb_toks(toks: Seq<TokM>) -> Option<OmbM> {
    match obj_fields(toks, 0) {
        None => None,
        Some((fs, end)) => if end != toks.len() {
            None
        } else {
            match req_pos(fs, "data"@) {
                None => None,
                Some(dp) => match obj_fields(toks, dp) {
                    None => None,
                    Some((dfs, dend)) => match req_str(toks, dfs, "color"@) {
                        None => None,
                        Some(color) => match req_int(toks, dfs, "floor_price"@) {
                            None => None,
                            Some(fp) => Some(OmbM { omb_color: color, omb_floor_price: fp }),
                        },
                    },
                },
            }
        },
    }
}

/// Parses a classification response from raw bytes.
pub open spec fn parse_omb(bytes: Seq<u8>) -> Option<OmbM> {
    match lex(bytes) {
        None => None,
        Some(toks) => parse_omb_toks(toks),
    }
}

/// Parses one classification response; returns exactly what `parse_omb`
/// assigns to the bytes.
pub fn parse_omb_x(bytes: &Vec<u8>) -> (r: Option<MaestroOmbColorGroup>)
    ensures
        match r {
            Some(v) => parse_omb(bytes@) == Some(v@),
            None => parse_omb(bytes@) is None,
        },
{
    let toks = match lex_bytes(bytes) {
        None => {
            return None;
        },
        Some(t) => t,
    };
    let (fields, end) = match obj_fields_x(&toks, 0) {
        None => {
            return None;
        },
        Some(p) => p,
    };
    if end != toks.len() {
        return None;
    }
    let dp = match req_pos_x(&fields, "data") {
        None => {
            return None;
        },
        Some(p) => p,
    };
    let (dfields, _dend) = match obj_fields_x(&toks, dp) {
        None => {
            return None;
        },
        Some(p) => p,
    };
    let color = match req_str_x(&toks, &dfields, "color") {
        None => {
            return None;
        },
        Some(s) => s,
    };
    let fp = match req_int_x(&toks, &dfields, "floor_price") {
        None => {
            return None;
        },
        Some(v) => v,
    };
    Some(MaestroOmbColorGroup { data: MaestroOmbColorGroupData { omb_color: color, omb_floor_price: fp } })
}

/// An ASCII digit character.
pub open spec fn is_digit_char(c: char) -> bool {
    48 <= c as u32 <= 57
}

/// The value of the digit characters `s[i..j)`.
pub open spec fn char_digits_val(s: Seq<char>, i: int, j: int) -> int
    decreases j - i,
{
    if i >= j {
        0
    } else {
        char_digits_val(s, i, j - 1) * 10 + (s[j - 1] as u32 - 48)
    }
}

pub proof fn lemma_char_digits_val_nonneg(s: Seq<char>, i: int, j: int)
    requires
        forall|k: int| i <= k < j ==> is_digit_char(s[k]),
    ensures
        char_digits_val(s, i, j) >= 0,
    decreases j - i,
{
    if i < j {
        lemma_char_digits_val_nonneg(s, i, j - 1);
    }
}

/// What parsing a decimal string as a signed 64-bit integer yields: an
/// optional sign, then digits only, the value within range.
pub open spec fn str_i64(s: Seq<char>) -> Option<int> {
    let signed = s.len() > 0 && (s[0] == '+' || s[0] == '-');
    let d0: int = if signed {
        1
    } else {
        0
    };
    let neg = s.len() > 0 && s[0] == '-';
    if d0 >= s.len() {
        None
    } else if !(forall|k: int| d0 <= k < s.len() ==> is_digit_char(s[k])) {
        None
    } else {
        let v = if neg {
            -char_digits_val(s, d0, s.len() as int)
        } else {
            char_digits_val(s, d0, s.len() as int)
        };
        if i64::MIN <= v <= i64::MAX {
            Some(v)
        } else {
            None
        }
    }
}

/// Parses a decimal string as a signed 64-bit integer; returns exactly what
/// `str_i64` assigns to it.
pub fn parse_i64_str(s: &str) -> (r: Option<i64>)
    ensures
        match r {
            Some(v) => str_i64(s@) == Some(v as int),
            None => str_i64(s@) is None,
        },
{
    let n = s.unicode_len();
    if n == 0 {
        return None;
    }
    let c0 = s.get_char(0);
    let neg = c0 == '-';
    let d0: usize = if neg || c0 == '+' {
        1
    } else {
        0
    };
    if d0 >= n {
        return None;
    }
    let mut mag: u64 = 0;
    let mut big = false;
    let mut k: usize = d0;
    while k < n
        invariant
            d0 <= k <= n,
            n == s@.len(),
            1 <= n,
            d0 as int == (if s@[0] == '+' || s@[0] == '-' {
                1int
            } else {
                0int
            }),
            d0 < n,
            neg == (s@[0] == '-'),
            forall|t: int| d0 <= t < k ==> is_digit_char(s@[t]),
            !big ==> mag as int == char_digits_val(s@, d0 as int, k as int) && mag
                <= 9223372036854775808u64,
            big ==> char_digits_val(s@, d0 as int, k as int) > 9223372036854775808u64,
        decreases n - k,
    {
        let c = s.get_char(k);
        let u = c as u32;
        if !(48 <= u && u <= 57) {
            proof {
                assert(!is_digit_char(s@[k as int]));
            }
            return None;
        }
        let d: u64 = (u - 48) as u64;
        proof {
            assert(char_digits_val(s@, d0 as int, k as int + 1) == char_digits_val(
                s@,
                d0 as int,
                k as int,
            ) * 10 + d);
        }
        if big {
            proof {
                lemma_char_digits_val_nonneg(s@, d0 as int, k as int);
            }
        } else {
            let m2: u128 = (mag as u128) * 10 + (d as u128);
            if m2 > 9223372036854775808u128 {
                big = true;
            } else {
                mag = m2 as u64;
            }
        }
        k = k + 1;
    }
    if big {
        proof {
            lemma_char_digits_val_nonneg(s@, d0 as int, n as int);
        }
        return None;
    }
    if neg {
        if mag == 9223372036854775808u64 {
            Some(i64::MIN)
        } else {
            Some(-(mag as i64))
        }
    } else {
        if mag >= 9223372036854775808u64 {
            None
        } else {
            Some(mag as i64)
        }
    }
}

/// The model of a transport outcome: the raw body, or the diagnostic.
pub open spec fn outcome_model(o: Result<Vec<u8>, String>) -> Result<Seq<u8>, Seq<char>> {
    match o {
        Ok(b) => Ok(b@),
        Err(e) => Err(e@),
    }
}

/// The collection-symbol facet of a detail fetch outcome: a transport
/// failure or a malformed payload degrades to absent.
pub open spec fn symbol_facet(o: Result<Seq<u8>, Seq<char>>) -> Option<Seq<char>> {
    match o {
        Err(_) => None,
        Ok(b) => match parse_info(b) {
            None => None,
            Some(m) => m.collection_symbol,
        },
    }
}

/// Reduces a detail fetch outcome to its collection-symbol facet.
pub fn symbol_facet_x(outcome: &Result<Vec<u8>, String>) -> (r: Option<String>)
    ensures
        r.deep_view() == symbol_facet(outcome_model(*outcome)),
{
    match outcome {
        Err(_) => None,
        Ok(b) => match parse_info_x(b) {
            None => None,
            Some(m) => m.data.collection_symbol,
        },
    }
}

/// The floor-price facet of a stats fetch outcome: a transport failure, a
/// malformed payload, a missing field, or an unparsable price all degrade
/// to zero.
pub open spec fn floor_price_facet(o: Result<Seq<u8>, Seq<char>>) -> int {
    match o {
        Err(_) => 0,
        Ok(b) => match parse_stats(b) {
            None => 0,
            Some(m) => {
                let fp = match m.floor_price {
                    None => "0"@,
                    Some(s) => s,
                };
                match str_i64(fp) {
                    None => 0,
                    Some(v) => v,
                }
            },
        },
    }
}

/// Reduces a stats fetch outcome to its floor-price facet.
pub fn floor_price_facet_x(outcome: &Result<Vec<u8>, String>) -> (r: i64)
    ensures
        r as int == floor_price_facet(outcome_model(*outcome)),
{
    match outcome {
        Err(_) => 0,
        Ok(b) => match parse_stats_x(b) {
            None => 0,
            Some(m) => {
                let fp: String = match m.data.floor_price {
                    None => String::from_str("0"),
                    Some(s) => s,
                };
                match parse_i64_str(fp.as_str()) {
                    None => 0,
                    Some(v) => v,
                }
            },
        },
    }
}

/// The classification facet of a classification fetch outcome: a transport
/// failure or a malformed payload degrades to the absent pair; both parts
/// are present or absent together.
pub open spec fn omb_facet(o: Result<Seq<u8>, Seq<char>>) -> (Option<Seq<char>>, Option<int>) {
    match o {
        Err(_) => (None, None),
        Ok(b) => match parse_omb(b) {
            None => (None, None),
            Some(m) => (Some(m.omb_color), Some(m.omb_floor_price)),
        },
    }
}

/// Reduces a classification fetch outcome to its facet pair.
pub fn omb_facet_x(outcome: &Result<Vec<u8>, String>) -> (r: (Option<String>, Option<i64>))
    ensures
        r.0.deep_view() == omb_facet(outcome_model(*outcome)).0,
        match r.1 {
            Some(v) => omb_facet(outcome_model(*outcome)).1 == Some(v as int),
            None => omb_facet(outcome_model(*outcome)).1 is None,
        },
{
    match outcome {
        Err(_) => (None, None),
        Ok(b) => match parse_omb_x(b) {
            None => (None, None),
            Some(m) => (Some(m.data.omb_color), Some(m.data.omb_floor_price)),
        },
    }
}

/// Law: the classification facet is one atomic pair — its parts are present
/// or absent together, on every outcome.
pub proof fn lemma_omb_facet_atomic(o: Result<Seq<u8>, Seq<char>>)
    ensures
        omb_facet(o).0 is Some <==> omb_facet(o).1 is Some,
{
}

} // verus!
