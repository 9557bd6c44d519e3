//! Per-line lexical split: optional label, mnemonic, comma-separated
//! argument list, trailing comment.
//!
//! Quotes are respected: a `;` or `:` inside a string literal neither
//! starts a comment nor ends a label, and commas inside strings do not
//! split arguments.  Outside string literals everything is uppercased.

use vstd::prelude::*;

use crate::assembler::errors::{OpParseError, OpParseErrorV, ParserError, ParserErrorV};
use crate::assembler::find_op_code;
use crate::assembler::expressions::lexer::is_space;

verus! {

/// One source line after tokenizing.  The tentative `op_code` is the
/// table's code for the mnemonic with all register arguments read as zero;
/// a mnemonic the table does not know leaves it empty (a candidate macro
/// call).  `address` and `width` are filled in by the assembler's first
/// pass.
#[derive(Debug)]
pub struct LineMeta {
    pub raw_line: Vec<u8>,
    pub line_no: usize,
    pub comment: Option<Vec<u8>>,
    pub inst: Option<Vec<u8>>,
    pub args_list: Vec<Vec<u8>>,
    pub label: Option<Vec<u8>>,
    pub op_code: Option<u16>,
    pub label_only: bool,
    pub address: u16,
    pub width: usize,
    pub uses_pc: bool,
}

/// The ghost image of a [`LineMeta`].
pub ghost struct LineMetaV {
    pub raw_line: Seq<u8>,
    pub line_no: usize,
    pub comment: Option<Seq<u8>>,
    pub inst: Option<Seq<u8>>,
    pub args_list: Seq<Seq<u8>>,
    pub label: Option<Seq<u8>>,
    pub op_code: Option<u16>,
    pub label_only: bool,
    pub address: u16,
    pub width: usize,
    pub uses_pc: bool,
}

pub open spec fn view_opt_bytes(v: Option<Vec<u8>>) -> Option<Seq<u8>> {
    match v {
        Some(b) => Some(b@),
        None => None,
    }
}

pub open spec fn view_args(v: Seq<Vec<u8>>) -> Seq<Seq<u8>> {
    v.map_values(|b: Vec<u8>| b@)
}

impl View for LineMeta {
    type V = LineMetaV;

    open spec fn view(&self) -> LineMetaV {
        LineMetaV {
            raw_line: self.raw_line@,
            line_no: self.line_no,
            comment: view_opt_bytes(self.comment),
            inst: view_opt_bytes(self.inst),
            args_list: view_args(self.args_list@),
            label: view_opt_bytes(self.label),
            op_code: self.op_code,
            label_only: self.label_only,
            address: self.address,
            width: self.width,
            uses_pc: self.uses_pc,
        }
    }
}

/// The empty line record every constructor starts from.
pub open spec fn spec_line_meta_default() -> LineMetaV {
    LineMetaV {
        raw_line: Seq::empty(),
        line_no: 0,
        comment: None,
        inst: None,
        args_list: Seq::empty(),
        label: None,
        op_code: None,
        label_only: false,
        address: 0,
        width: 0,
        uses_pc: false,
    }
}

impl Default for LineMeta {
    fn default() -> (r: LineMeta)
        ensures
            r@ == spec_line_meta_default(),
    {
        let r = LineMeta {
            raw_line: Vec::new(),
            line_no: 0,
            comment: None,
            inst: None,
            args_list: Vec::new(),
            label: None,
            op_code: None,
            label_only: false,
            address: 0,
            width: 0,
            uses_pc: false,
        };
        proof {
            assert(r@.raw_line =~= Seq::<u8>::empty());
            assert(r@.args_list =~= Seq::<Seq<u8>>::empty());
        }
        r
    }
}

impl Clone for LineMeta {
    /// A deep copy; the image is unchanged.
    fn clone(&self) -> (r: LineMeta)
        ensures
            r@ == self@,
    {
        let r = LineMeta {
            raw_line: crate::util::bytes_copy(&self.raw_line),
            line_no: self.line_no,
            comment: clone_opt_bytes(&self.comment),
            inst: clone_opt_bytes(&self.inst),
            args_list: clone_args(&self.args_list),
            label: clone_opt_bytes(&self.label),
            op_code: self.op_code,
            label_only: self.label_only,
            address: self.address,
            width: self.width,
            uses_pc: self.uses_pc,
        };
        r
    }
}

fn clone_opt_bytes(v: &Option<Vec<u8>>) -> (r: Option<Vec<u8>>)
    ensures
        view_opt_bytes(r) == view_opt_bytes(*v),
{
    match v {
        Some(b) => Some(crate::util::bytes_copy(b)),
        None => None,
    }
}

fn clone_args(v: &Vec<Vec<u8>>) -> (r: Vec<Vec<u8>>)
    ensures
        view_args(r@) == view_args(v@),
{
    let mut r: Vec<Vec<u8>> = Vec::new();
    let mut i: usize = 0;
    while i < v.len()
        invariant
            i <= v.len(),
            r@.len() == i,
            forall|j: int| 0 <= j < i ==> r@[j]@ == v@[j]@,
        decreases v.len() - i,
    {
        r.push(crate::util::bytes_copy(&v[i]));
        i = i + 1;
    }
    proof {
        assert(view_args(r@) =~= view_args(v@));
    }
    r
}

impl LineMeta {
    /// A copy that keeps only what error reporting needs: the raw text and
    /// the line number.
    pub fn erroring(line: &LineMeta) -> (r: LineMeta)
        ensures
            r@ == (LineMetaV {
                line_no: line@.line_no,
                raw_line: line@.raw_line,
                ..spec_line_meta_default()
            }),
    {
        let mut r = LineMeta::default();
        r.line_no = line.line_no;
        r.raw_line = crate::util::bytes_copy(&line.raw_line);
        r
    }

    /// A line that holds only a label (and perhaps a comment).
    pub fn label_only(label: Option<Vec<u8>>, comment: Option<Vec<u8>>, raw_line: Vec<u8>) -> (r:
        LineMeta)
        ensures
            r@ == (LineMetaV {
                label: view_opt_bytes(label),
                comment: view_opt_bytes(comment),
                raw_line: raw_line@,
                label_only: true,
                ..spec_line_meta_default()
            }),
    {
        let mut r = LineMeta::default();
        r.label = label;
        r.comment = comment;
        r.raw_line = raw_line;
        r.label_only = true;
        r
    }
}

/// A byte uppercased: the ASCII lowercase letters shift, all else stays.
pub open spec fn spec_upper(c: u8) -> u8 {
    if 97 <= c <= 122 {
        (c - 32) as u8
    } else {
        c
    }
}

pub open spec fn spec_upper_seq(s: Seq<u8>) -> Seq<u8> {
    s.map_values(|c: u8| spec_upper(c))
}

/// The sequence without leading whitespace.
pub open spec fn spec_trim_start(s: Seq<u8>) -> Seq<u8>
    decreases s.len(),
{
    if s.len() > 0 && is_space(s[0]) {
        spec_trim_start(s.drop_first())
    } else {
        s
    }
}

/// The sequence without trailing whitespace.
pub open spec fn spec_trim_end(s: Seq<u8>) -> Seq<u8>
    decreases s.len(),
{
    if s.len() > 0 && is_space(s.last()) {
        spec_trim_end(s.drop_last())
    } else {
        s
    }
}

pub open spec fn spec_trim(s: Seq<u8>) -> Seq<u8> {
    spec_trim_end(spec_trim_start(s))
}

/// The quote state after one byte: an unescaped quote toggles, and inside
/// quotes a backslash escapes the byte after it.
pub open spec fn spec_quote_step(c: u8, in_quotes: bool, escaped: bool) -> (bool, bool) {
    let inq = if c == 39 && !escaped {
        !in_quotes
    } else {
        in_quotes
    };
    let esc = c == 92 && inq;
    (inq, esc)
}

/// The first position of a byte outside any string literal.
pub open spec fn spec_find_unquoted(
    s: Seq<u8>,
    pos: int,
    target: u8,
    in_quotes: bool,
    escaped: bool,
) -> Option<int>
    decreases s.len() - pos,
{
    if pos < 0 || pos >= s.len() {
        None
    } else {
        let c = s[pos];
        if !in_quotes && c == target {
            Some(pos)
        } else {
            let (inq, esc) = spec_quote_step(c, in_quotes, escaped);
            spec_find_unquoted(s, pos + 1, target, inq, esc)
        }
    }
}

/// The first position of a byte, quotes regarded or not.
pub open spec fn spec_find_byte(s: Seq<u8>, pos: int, target: u8) -> Option<int>
    decreases s.len() - pos,
{
    if pos < 0 || pos >= s.len() {
        None
    } else if s[pos] == target {
        Some(pos)
    } else {
        spec_find_byte(s, pos + 1, target)
    }
}

/// A valid label name: nonempty, every byte an uppercase letter or an
/// underscore (the name has already been uppercased).
pub open spec fn spec_label_ok(s: Seq<u8>) -> bool {
    s.len() > 0 && forall|i: int| 0 <= i < s.len() ==> (#[trigger] s[i]) == 95 || 65 <= s[i] <= 90
}

/// The argument text split at commas that stand outside string literals.
/// Bytes outside literals are uppercased, inside kept; each finished
/// argument is trimmed.  A literal still open at the end of the text is an
/// unterminated string.
pub open spec fn spec_split_args(
    args: Seq<u8>,
    pos: int,
    in_quotes: bool,
    escaped: bool,
    cur: Seq<u8>,
    acc: Seq<Seq<u8>>,
) -> Result<Seq<Seq<u8>>, ParserErrorV>
    decreases args.len() - pos,
{
    if pos < 0 || pos >= args.len() {
        Ok(acc)
    } else {
        let c = args[pos];
        let (inq, esc) = spec_quote_step(c, in_quotes, escaped);
        let (cur2, acc2) = if c == 44 && !inq {
            (Seq::<u8>::empty(), acc.push(spec_trim(cur)))
        } else if inq {
            (cur.push(c), acc)
        } else {
            (cur.push(spec_upper(c)), acc)
        };
        if pos == args.len() - 1 {
            if inq {
                Err(ParserErrorV::UnterminatedString(args))
            } else {
                Ok(acc2.push(spec_trim(cur2)))
            }
        } else {
            spec_split_args(args, pos + 1, inq, esc, cur2, acc2)
        }
    }
}

/// What tokenizing one raw line yields.  The comment is stripped at the
/// first unquoted `;`; a prefix before an unquoted `:` is a label,
/// validated and uppercased; the rest splits at the first space into the
/// uppercased mnemonic and the argument text; a blank line yields nothing,
/// a bare label a label-only line.
pub open spec fn spec_tokenize(raw: Seq<u8>) -> Result<Option<LineMetaV>, ParserErrorV> {
    let line0 = spec_trim(raw);
    let comment = match spec_find_unquoted(line0, 0, 59, false, false) {
        Some(ci) => Some(spec_trim(line0.subrange(ci + 1, line0.len() as int))),
        None => None,
    };
    let line1 = match spec_find_unquoted(line0, 0, 59, false, false) {
        Some(ci) => spec_trim(line0.subrange(0, ci)),
        None => line0,
    };
    if line1.len() == 0 {
        Ok(None)
    } else {
        let label_idx = spec_find_unquoted(line1, 0, 58, false, false);
        let label_res: Result<Option<Seq<u8>>, ParserErrorV> = match label_idx {
            Some(li) => {
                let lab = spec_upper_seq(spec_trim(line1.subrange(0, li)));
                if spec_label_ok(lab) {
                    Ok(Some(lab))
                } else {
                    Err(ParserErrorV::InvalidLabel(lab))
                }
            },
            None => Ok(None),
        };
        match label_res {
            Err(e) => Err(e),
            Ok(label) => {
                let line2 = match label_idx {
                    Some(li) => spec_trim(line1.subrange(li + 1, line1.len() as int)),
                    None => line1,
                };
                if line2.len() == 0 {
                    Ok(
                        Some(
                            LineMetaV {
                                label,
                                comment,
                                raw_line: raw,
                                label_only: true,
                                ..spec_line_meta_default()
                            },
                        ),
                    )
                } else {
                    let space_idx = spec_find_byte(line2, 0, 32);
                    let inst_part = match space_idx {
                        Some(si) => spec_trim(line2.subrange(0, si)),
                        None => line2,
                    };
                    let args_res: Result<Seq<Seq<u8>>, ParserErrorV> = match space_idx {
                        Some(si) => spec_split_args(
                            spec_trim(line2.subrange(si + 1, line2.len() as int)),
                            0,
                            false,
                            false,
                            Seq::empty(),
                            Seq::empty(),
                        ),
                        None => Ok(Seq::empty()),
                    };
                    match args_res {
                        Err(e) => Err(e),
                        Ok(args_list) => {
                            let inst = spec_upper_seq(inst_part);
                            match crate::assembler::find_op_code::spec_from_args_and_sp_psw(
                                inst,
                                0,
                                0,
                                false,
                                false,
                            ) {
                                Ok(op) => Ok(
                                    Some(
                                        LineMetaV {
                                            comment,
                                            inst: Some(inst),
                                            args_list,
                                            raw_line: raw,
                                            label,
                                            op_code: Some(op as u16),
                                            ..spec_line_meta_default()
                                        },
                                    ),
                                ),
                                Err(OpParseErrorV::NoSuchInstruction(_)) => Ok(
                                    Some(
                                        LineMetaV {
                                            comment,
                                            inst: Some(inst),
                                            args_list,
                                            raw_line: raw,
                                            label,
                                            op_code: None,
                                            ..spec_line_meta_default()
                                        },
                                    ),
                                ),
                                Err(e) => Err(ParserErrorV::NoInstructionFound(e)),
                            }
                        },
                    }
                }
            },
        }
    }
}

/// Trim leading and trailing whitespace from a byte slice.
pub fn trim(v: &[u8]) -> (r: Vec<u8>)
    ensures
        r@ == spec_trim(v@),
{
    let mut lo: usize = 0;
    proof {
        assert(v@.subrange(0, v@.len() as int) =~= v@);
    }
    while lo < v.len() && (v[lo] == 32 || v[lo] == 9 || v[lo] == 10 || v[lo] == 13 || v[lo] == 11
        || v[lo] == 12)
        invariant
            lo <= v.len(),
            spec_trim_start(v@) == spec_trim_start(v@.subrange(lo as int, v@.len() as int)),
        decreases v.len() - lo,
    {
        proof {
            assert(v@.subrange(lo as int, v@.len() as int).drop_first() =~= v@.subrange(
                lo + 1,
                v@.len() as int,
            ));
        }
        lo = lo + 1;
    }
    proof {
        assert(spec_trim_start(v@) == v@.subrange(lo as int, v@.len() as int));
    }
    let mut hi: usize = v.len();
    while hi > lo && (v[hi - 1] == 32 || v[hi - 1] == 9 || v[hi - 1] == 10 || v[hi - 1] == 13 || v[hi
        - 1] == 11 || v[hi - 1] == 12)
        invariant
            lo <= hi <= v.len(),
            spec_trim_start(v@) == v@.subrange(lo as int, v@.len() as int),
            spec_trim_end(v@.subrange(lo as int, v@.len() as int)) == spec_trim_end(
                v@.subrange(lo as int, hi as int),
            ),
        decreases hi,
    {
        proof {
            assert(v@.subrange(lo as int, hi as int).drop_last() =~= v@.subrange(
                lo as int,
                hi - 1,
            ));
        }
        hi = hi - 1;
    }
    let mut r: Vec<u8> = Vec::new();
    let mut i: usize = lo;
    while i < hi
        invariant
            lo <= i <= hi <= v.len(),
            r@ =~= v@.subrange(lo as int, i as int),
        decreases hi - i,
    {
        r.push(v[i]);
        i = i + 1;
    }
    proof {
        assert(r@ =~= v@.subrange(lo as int, hi as int));
    }
    r
}

/// Uppercase a byte slice.
pub fn upper_all(v: &[u8]) -> (r: Vec<u8>)
    ensures
        r@ == spec_upper_seq(v@),
{
    let mut r: Vec<u8> = Vec::new();
    let mut i: usize = 0;
    while i < v.len()
        invariant
            i <= v.len(),
            r@.len() == i,
            forall|j: int| 0 <= j < i ==> r@[j] == spec_upper(v@[j]),
        decreases v.len() - i,
    {
        let c = v[i];
        if c >= 97 && c <= 122 {
            r.push(c - 32);
        } else {
            r.push(c);
        }
        i = i + 1;
    }
    proof {
        assert(r@ =~= spec_upper_seq(v@));
    }
    r
}

/// The first position of a byte outside any string literal.
fn find_unquoted(v: &Vec<u8>, target: u8) -> (r: Option<usize>)
    ensures
        match spec_find_unquoted(v@, 0, target, false, false) {
            Some(p) => r is Some && r->0 == p,
            None => r is None,
        },
        r is Some ==> r->0 < v.len(),
{
    let mut in_quotes = false;
    let mut escaped = false;
    let mut i: usize = 0;
    while i < v.len()
        invariant
            i <= v.len(),
            spec_find_unquoted(v@, 0, target, false, false) == spec_find_unquoted(
                v@,
                i as int,
                target,
                in_quotes,
                escaped,
            ),
        decreases v.len() - i,
    {
        let c = v[i];
        if !in_quotes && c == target {
            return Some(i);
        }
        let inq = if c == 39 && !escaped {
            !in_quotes
        } else {
            in_quotes
        };
        escaped = c == 92 && inq;
        in_quotes = inq;
        i = i + 1;
    }
    None
}

/// The first position of a byte.
fn find_byte(v: &Vec<u8>, target: u8) -> (r: Option<usize>)
    ensures
        match spec_find_byte(v@, 0, target) {
            Some(p) => r is Some && r->0 == p,
            None => r is None,
        },
        r is Some ==> r->0 < v.len(),
{
    let mut i: usize = 0;
    while i < v.len()
        invariant
            i <= v.len(),
            spec_find_byte(v@, 0, target) == spec_find_byte(v@, i as int, target),
        decreases v.len() - i,
    {
        if v[i] == target {
            return Some(i);
        }
        i = i + 1;
    }
    None
}

/// Copy a subrange of a byte vector.
fn sub_vec(v: &Vec<u8>, lo: usize, hi: usize) -> (r: Vec<u8>)
    requires
        lo <= hi <= v.len(),
    ensures
        r@ == v@.subrange(lo as int, hi as int),
{
    let mut r: Vec<u8> = Vec::new();
    let mut i: usize = lo;
    while i < hi
        invariant
            lo <= i <= hi <= v.len(),
            r@ =~= v@.subrange(lo as int, i as int),
        decreases hi - i,
    {
        r.push(v[i]);
        i = i + 1;
    }
    proof {
        assert(r@ =~= v@.subrange(lo as int, hi as int));
    }
    r
}

/// Split the argument text at unquoted commas.
fn split_args(args: &Vec<u8>) -> (r: Result<Vec<Vec<u8>>, ParserError>)
    ensures
        match spec_split_args(args@, 0, false, false, Seq::empty(), Seq::empty()) {
            Ok(list) => r is Ok && view_args(r->Ok_0@) == list,
            Err(e) => r is Err && r->Err_0@ == e,
        },
{
    let ghost goal = spec_split_args(args@, 0, false, false, Seq::empty(), Seq::empty());
    let mut acc: Vec<Vec<u8>> = Vec::new();
    let mut cur: Vec<u8> = Vec::new();
    let mut in_quotes = false;
    let mut escaped = false;
    let mut i: usize = 0;
    proof {
        assert(view_args(acc@) =~= Seq::<Seq<u8>>::empty());
        assert(cur@ =~= Seq::<u8>::empty());
    }
    while i < args.len()
        invariant
            i <= args.len(),
            goal == spec_split_args(args@, 0, false, false, Seq::empty(), Seq::empty()),
            goal == spec_split_args(
                args@,
                i as int,
                in_quotes,
                escaped,
                cur@,
                view_args(acc@),
            ),
        decreases args.len() - i,
    {
        let c = args[i];
        let inq = if c == 39 && !escaped {
            !in_quotes
        } else {
            in_quotes
        };
        escaped = c == 92 && inq;
        in_quotes = inq;
        let ghost pre_cur = cur@;
        let ghost pre_acc = view_args(acc@);
        if c == 44 && !in_quotes {
            let done = trim(cur.as_slice());
            proof {
                assert(view_args(acc@.push(done)) =~= view_args(acc@).push(done@));
            }
            acc.push(done);
            cur = Vec::new();
            proof {
                assert(cur@ =~= Seq::<u8>::empty());
            }
        } else if in_quotes {
            cur.push(c);
        } else {
            if c >= 97 && c <= 122 {
                cur.push(c - 32);
            } else {
                cur.push(c);
            }
        }
        if i == args.len() - 1 {
            if in_quotes {
                return Err(ParserError::UnterminatedString(crate::util::bytes_copy(args)));
            }
            let done = trim(cur.as_slice());
            proof {
                assert(view_args(acc@.push(done)) =~= view_args(acc@).push(done@));
            }
            acc.push(done);
            cur = Vec::new();
            proof {
                assert(cur@ =~= Seq::<u8>::empty());
            }
            i = i + 1;
            proof {
                assert(goal == Ok::<Seq<Seq<u8>>, ParserErrorV>(view_args(acc@)));
            }
            return Ok(acc);
        }
        i = i + 1;
    }
    Ok(acc)
}

/// Tokenize one raw source line; a blank line (or a lone comment) yields
/// nothing.
#[verifier::rlimit(100)]
pub fn tokenize(raw_line: &Vec<u8>) -> (r: Result<Option<LineMeta>, ParserError>)
    ensures
        match spec_tokenize(raw_line@) {
            Ok(Some(lm)) => r is Ok && r->Ok_0 is Some && r->Ok_0->0@ == lm,
            Ok(None) => r is Ok && r->Ok_0 is None,
            Err(e) => r is Err && r->Err_0@ == e,
        },
        r is Ok && r->Ok_0 is Some ==> (r->Ok_0->0@.label_only || r->Ok_0->0@.inst is Some),
{
    let line0 = trim(raw_line.as_slice());
    let mut comment: Option<Vec<u8>> = None;
    let line1 = match find_unquoted(&line0, 59) {
        Some(ci) => {
            comment = Some(trim(sub_vec(&line0, ci + 1, line0.len()).as_slice()));
            trim(sub_vec(&line0, 0, ci).as_slice())
        },
        None => line0,
    };
    if line1.len() == 0 {
        return Ok(None);
    }
    let mut label: Option<Vec<u8>> = None;
    let label_idx = find_unquoted(&line1, 58);
    let line2 = match label_idx {
        Some(li) => {
            let lab = upper_all(trim(sub_vec(&line1, 0, li).as_slice()).as_slice());
            if lab.len() == 0 {
                return Err(ParserError::InvalidLabel(lab));
            }
            let mut k: usize = 0;
            let mut lab_ok = true;
            while k < lab.len()
                invariant
                    k <= lab.len(),
                    lab_ok == (forall|j: int|
                        0 <= j < k ==> (#[trigger] lab@[j]) == 95 || 65 <= lab@[j] <= 90),
                decreases lab.len() - k,
            {
                let c = lab[k];
                if c != 95 && !(c >= 65 && c <= 90) {
                    lab_ok = false;
                }
                k = k + 1;
            }
            if !lab_ok {
                return Err(ParserError::InvalidLabel(lab));
            }
            label = Some(lab);
            trim(sub_vec(&line1, li + 1, line1.len()).as_slice())
        },
        None => line1,
    };
    if line2.len() == 0 {
        return Ok(Some(LineMeta::label_only(label, comment, crate::util::bytes_copy(raw_line))));
    }
    let space_idx = find_byte(&line2, 32);
    let inst_part = match space_idx {
        Some(si) => trim(sub_vec(&line2, 0, si).as_slice()),
        None => crate::util::bytes_copy(&line2),
    };
    let args_list: Vec<Vec<u8>> = match space_idx {
        Some(si) => {
            let raw_args = trim(sub_vec(&line2, si + 1, line2.len()).as_slice());
            match split_args(&raw_args) {
                Ok(list) => list,
                Err(e) => {
                    return Err(e);
                },
            }
        },
        None => {
            let empty: Vec<Vec<u8>> = Vec::new();
            proof {
                assert(view_args(empty@) =~= Seq::<Seq<u8>>::empty());
            }
            empty
        },
    };
    let inst = upper_all(inst_part.as_slice());
    let op_code: Option<u16> = match find_op_code::from_args(&inst, 0, 0) {
        Ok(op) => Some(op as u16),
        Err(e) => match e {
            OpParseError::NoSuchInstruction(_) => None,
            _ => {
                return Err(ParserError::NoInstructionFound(e));
            },
        },
    };
    let mut lm = LineMeta::default();
    lm.comment = comment;
    lm.inst = Some(inst);
    lm.args_list = args_list;
    lm.raw_line = crate::util::bytes_copy(raw_line);
    lm.label = label;
    lm.op_code = op_code;
    Ok(Some(lm))
}

} // verus!
