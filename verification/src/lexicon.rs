//! Translation text for the 64 hexagrams: the record types, the validation
//! rules for a loaded set of records, and the lookup table built from them.
//!
//! Reading a translation file from disk and decoding its JSON happen outside
//! this crate's verified core; what arrives here is the already-decoded data,
//! which is validated and indexed by King Wen number.

use vstd::prelude::*;

use std::collections::HashMap;

use crate::text::push_decimal;
use crate::text::spec_decimal;

verus! {

broadcast use vstd::std_specs::hash::group_hash_axioms;

/// The names of one hexagram in the translation.
#[derive(Debug, Clone)]
pub struct HexagramName {
    pub english: String,
    pub chinese: Option<String>,
    pub pinyin: Option<String>,
    pub wade_giles: Option<String>,
}

/// Descriptive name of one trigram in the translation.
#[derive(Debug, Clone)]
pub struct Trigram {
    pub name: String,
    pub element: Option<String>,
}

/// The two trigrams of a hexagram, upper over lower.
#[derive(Debug, Clone)]
pub struct Trigrams {
    pub upper: Trigram,
    pub lower: Trigram,
}

/// Free commentary attached to a hexagram.
#[derive(Debug, Clone)]
pub struct Commentary {
    pub image: Option<String>,
    pub judgement: Option<String>,
}

/// The text attached to one line of a hexagram.
#[derive(Debug, Clone)]
pub struct HexagramLine {
    pub position: u8,
    pub line_type: String,
    pub text: String,
    pub commentary: Option<String>,
}

/// One hexagram's record in a translation.
#[derive(Debug, Clone)]
pub struct HexagramData {
    pub king_wen_number: u8,
    pub fu_xi_number: Option<u8>,
    pub name: HexagramName,
    pub trigrams: Trigrams,
    pub image: String,
    pub judgement: String,
    pub commentary: Option<Commentary>,
    pub lines: Vec<HexagramLine>,
    pub keywords: Option<Vec<String>>,
    pub sequence_notes: Option<String>,
}

/// Free-form information about the translation as a whole.
#[derive(Debug)]
pub struct Metadata {
    pub translation_source: Option<String>,
    pub version: Option<String>,
    pub notes: Option<String>,
}

/// A whole translation document: the hexagram records and optional metadata.
#[derive(Debug)]
pub struct IChingData {
    pub hexagrams: Vec<HexagramData>,
    pub metadata: Option<Metadata>,
}

/// A translation indexed by King Wen number.
pub type IChingTranslation = HashMap<u8, HexagramData>;

/// What can go wrong when a translation is loaded: the file could not be
/// read, its JSON could not be parsed, or the decoded data broke a
/// validation rule. The first two arise outside the verified core, which
/// receives them as messages.
#[derive(Debug)]
pub enum IChingError {
    FileError(String),
    JsonError(String),
    DataError(String),
}

/// The rendered message of an error, with a prefix naming its kind.
pub open spec fn spec_error_message(e: IChingError) -> Seq<char> {
    match e {
        IChingError::FileError(m) => "File error: "@ + m@,
        IChingError::JsonError(m) => "JSON parsing error: "@ + m@,
        IChingError::DataError(m) => "Data validation error: "@ + m@,
    }
}

impl IChingError {
    /// Render the error with a prefix naming its kind.
    pub fn to_string(&self) -> (r: String)
        ensures
            r@ == spec_error_message(*self),
    {
        match self {
            IChingError::FileError(m) => {
                let mut r = String::from_str("File error: ");
                r.append(m.as_str());
                r
            },
            IChingError::JsonError(m) => {
                let mut r = String::from_str("JSON parsing error: ");
                r.append(m.as_str());
                r
            },
            IChingError::DataError(m) => {
                let mut r = String::from_str("Data validation error: ");
                r.append(m.as_str());
                r
            },
        }
    }
}

/// A single record is acceptable when it has exactly six line entries and
/// its King Wen number is in range.
pub open spec fn spec_record_ok(r: HexagramData) -> bool {
    &&& r.lines@.len() == 6
    &&& 1 <= r.king_wen_number <= 64
}

/// A translation document is acceptable when it has exactly 64 hexagram
/// records, each of them acceptable.
pub open spec fn spec_data_valid(d: IChingData) -> bool {
    &&& d.hexagrams@.len() == 64
    &&& forall|i: int| 0 <= i < d.hexagrams@.len() ==> spec_record_ok(#[trigger] d.hexagrams@[i])
}

/// The position of the first unacceptable record at or after `i`, or the
/// record count when all of them are acceptable.
pub open spec fn spec_first_bad_from(recs: Seq<HexagramData>, i: int) -> int
    decreases recs.len() - i,
{
    if i < 0 || i >= recs.len() {
        recs.len() as int
    } else if !spec_record_ok(recs[i]) {
        i
    } else {
        spec_first_bad_from(recs, i + 1)
    }
}

/// The message reported for the record `r` that failed validation: the line
/// count is checked before the number range.
pub open spec fn spec_record_error(r: HexagramData) -> Seq<char> {
    if r.lines@.len() != 6 {
        "Hexagram "@ + spec_decimal(r.king_wen_number as int) + " has "@ + spec_decimal(
            r.lines@.len() as int,
        ) + " lines, expected 6"@
    } else {
        "Invalid King Wen number: "@ + spec_decimal(r.king_wen_number as int)
    }
}

/// The message reported for an unacceptable document: a wrong record count
/// is reported first, else the first unacceptable record is named.
pub open spec fn spec_validation_error(d: IChingData) -> Seq<char> {
    if d.hexagrams@.len() != 64 {
        "Expected 64 hexagrams, found "@ + spec_decimal(d.hexagrams@.len() as int)
    } else {
        spec_record_error(d.hexagrams@[spec_first_bad_from(d.hexagrams@, 0)])
    }
}

/// The lookup table of a record sequence: each record keyed by its King Wen
/// number, a later record displacing an earlier one with the same number.
pub open spec fn spec_translation_map(recs: Seq<HexagramData>) -> Map<u8, HexagramData>
    decreases recs.len(),
{
    if recs.len() == 0 {
        Map::empty()
    } else {
        spec_translation_map(recs.drop_last()).insert(recs.last().king_wen_number, recs.last())
    }
}

/// Validate a decoded translation document and index its records by King
/// Wen number. Exactly the documents that `spec_data_valid` accepts pass;
/// a failing document is rejected with a message naming what failed.
pub fn build_translation(data: IChingData) -> (r: Result<IChingTranslation, IChingError>)
    ensures
        r matches Ok(m) ==> spec_data_valid(data) && m@ == spec_translation_map(data.hexagrams@),
        r matches Err(e) ==> {
            &&& !spec_data_valid(data)
            &&& e matches IChingError::DataError(msg)
            &&& msg@ == spec_validation_error(data)
        },
{
    let ghost orig = data.hexagrams@;
    let mut hexagrams = data.hexagrams;
    if hexagrams.len() != 64 {
        let mut msg = String::from_str("Expected 64 hexagrams, found ");
        push_decimal(&mut msg, hexagrams.len() as u64);
        return Err(IChingError::DataError(msg));
    }
    let mut map: IChingTranslation = HashMap::new();
    let mut done: usize = 0;
    proof {
        assert(orig.take(0) =~= Seq::<HexagramData>::empty());
    }
    #[verifier::loop_isolation(false)]
    while hexagrams.len() > 0
        invariant
            orig.len() == 64,
            done + hexagrams@.len() == 64,
            hexagrams@ == orig.skip(done as int),
            forall|j: int| 0 <= j < done ==> spec_record_ok(#[trigger] orig[j]),
            map@ == spec_translation_map(orig.take(done as int)),
        decreases hexagrams@.len(),
    {
        let hexagram = hexagrams.remove(0);
        proof {
            assert(hexagram == orig[done as int]);
            assert(hexagrams@ =~= orig.skip(done as int + 1));
        }
        if hexagram.lines.len() != 6 {
            proof {
                lemma_first_bad_is(orig, 0, done as int);
            }
            let mut msg = String::from_str("Hexagram ");
            push_decimal(&mut msg, hexagram.king_wen_number as u64);
            msg.append(" has ");
            push_decimal(&mut msg, hexagram.lines.len() as u64);
            msg.append(" lines, expected 6");
            proof {
                assert(msg@ =~= spec_record_error(orig[done as int]));
            }
            return Err(IChingError::DataError(msg));
        }
        if hexagram.king_wen_number < 1 || hexagram.king_wen_number > 64 {
            proof {
                lemma_first_bad_is(orig, 0, done as int);
            }
            let mut msg = String::from_str("Invalid King Wen number: ");
            push_decimal(&mut msg, hexagram.king_wen_number as u64);
            return Err(IChingError::DataError(msg));
        }
        map.insert(hexagram.king_wen_number, hexagram);
        proof {
            assert(orig.take(done as int + 1).drop_last() =~= orig.take(done as int));
            assert(orig.take(done as int + 1).last() == orig[done as int]);
        }
        done += 1;
    }
    proof {
        assert(orig.take(64) =~= orig);
    }
    Ok(map)
}

/// When every record before `i` is acceptable and the one at `i` is not,
/// `i` is the first unacceptable position at or after `k`, for any `k <= i`.
proof fn lemma_first_bad_is(recs: Seq<HexagramData>, k: int, i: int)
    requires
        0 <= k <= i < recs.len(),
        forall|j: int| k <= j < i ==> spec_record_ok(#[trigger] recs[j]),
        !spec_record_ok(recs[i]),
    ensures
        spec_first_bad_from(recs, k) == i,
    decreases i - k,
{
    if k < i {
        lemma_first_bad_is(recs, k + 1, i);
    }
}

} // verus!
