use crate::text::{decimal, decimal_string};
use vstd::prelude::*;
use vstd::string::StringExecFns;

verus! {

#[verifier::external_type_specification]
#[verifier::external_body]
pub struct ExFrame(backtrace::Frame);

/// A resolved stack symbol, as far as filters and the renderer read it.
pub struct SymbolInfo {
    /// The demangled symbol name, where one was found.
    pub name: Option<String>,
    /// The source file, where debug information gives it.
    pub file: Option<String>,
    /// The source line, where debug information gives it.
    pub line: Option<u32>,
}

/// The part of a symbol name that marks this module's own capture routine.
pub const CAPTURE_ROUTINE_MARK: &'static str = "myemma_core::backtrace_filter::";

/// `needle` occurs in `hay` as a contiguous run.
pub open spec fn occurs_in(needle: Seq<char>, hay: Seq<char>) -> bool {
    exists|i: int|
        0 <= i && i + needle.len() <= hay.len() && #[trigger] hay.subrange(i, i + needle.len())
            == needle
}

/// A frame of the capture routine itself.
pub open spec fn is_capture_frame(name: Seq<char>) -> bool {
    occurs_in(CAPTURE_ROUTINE_MARK@, name)
}

/// A symbol that may appear in a rendered trace: it has a name, and the name
/// is not that of the capture routine.
pub open spec fn is_reportable(s: SymbolInfo) -> bool {
    &&& s.name is Some
    &&& !is_capture_frame(s.name->0@)
}

/// One rendered frame: the newline that opens it, the symbol name, then
/// ` line: <n>` where line numbers are wanted and the line is known.
pub open spec fn symbol_line(s: SymbolInfo, with_lines: bool) -> Seq<char> {
    let name = match s.name {
        Some(n) => n@,
        None => Seq::empty(),
    };
    "\n"@ + name + match s.line {
        Some(l) => if with_lines {
            " line: "@ + decimal(l as nat)
        } else {
            Seq::empty()
        },
        None => Seq::empty(),
    }
}

/// The rendered trace of the given frames: one line each, each line opened by
/// a newline; empty where there are none.
pub open spec fn backtrace_text(entries: Seq<SymbolInfo>, with_lines: bool) -> Seq<char>
    decreases entries.len(),
{
    if entries.len() == 0 {
        Seq::empty()
    } else {
        backtrace_text(entries.drop_last(), with_lines) + symbol_line(entries.last(), with_lines)
    }
}

/// A symbol that the filter kept (`keep`) and that may be reported.
pub open spec fn is_accepted(s: SymbolInfo, keep: bool) -> bool {
    keep && is_reportable(s)
}

/// All accepted symbols, in stack order; `keeps[i]` is the filter's verdict on
/// `symbols[i]`.
pub open spec fn accepted(symbols: Seq<SymbolInfo>, keeps: Seq<bool>) -> Seq<SymbolInfo>
    decreases symbols.len(),
{
    if symbols.len() == 0 || keeps.len() != symbols.len() {
        Seq::empty()
    } else {
        let before = accepted(symbols.drop_last(), keeps.drop_last());
        if is_accepted(symbols.last(), keeps.last()) {
            before.push(symbols.last())
        } else {
            before
        }
    }
}

/// The first `amount` accepted symbols, in stack order. Frames of the capture
/// routine are never accepted, so they use up none of the budget.
pub open spec fn selected(symbols: Seq<SymbolInfo>, keeps: Seq<bool>, amount: nat) -> Seq<SymbolInfo> {
    let all = accepted(symbols, keeps);
    if all.len() <= amount {
        all
    } else {
        all.take(amount as int)
    }
}

/// Relies on backtrace's `trace`: calls back once for each frame of the
/// current stack, innermost first. The frames are copied out unresolved.
#[verifier::external_body]
fn stack_frames() -> Vec<backtrace::Frame> {
    let mut frames = Vec::new();
    backtrace::trace(|frame| {
        frames.push(frame.clone());
        true
    });
    frames
}

/// Relies on backtrace's `resolve_frame`: calls back once for each symbol of
/// a frame (none where nothing is known, several for inlined calls).
#[verifier::external_body]
fn frame_symbols(frame: &backtrace::Frame) -> Vec<SymbolInfo> {
    let mut symbols = Vec::new();
    backtrace::resolve_frame(frame, |s| {
        symbols.push(SymbolInfo {
            name: s.name().map(|n| n.to_string()),
            file: s.filename().map(|f| f.display().to_string()),
            line: s.lineno(),
        })
    });
    symbols
}

/// Whether `needle` occurs in `hay`.
pub fn contains_text(hay: &str, needle: &str) -> (r: bool)
    ensures
        r == occurs_in(needle@, hay@),
{
    let n = hay.unicode_len();
    let m = needle.unicode_len();
    if m > n {
        proof {
            assert forall|i: int|
                0 <= i && i + needle@.len() <= hay@.len() implies #[trigger] hay@.subrange(
                i,
                i + needle@.len(),
            ) != needle@ by {}
        }
        return false;
    }
    let mut i: usize = 0;
    while i <= n - m
        invariant
            n == hay@.len(),
            m == needle@.len(),
            m <= n,
            i <= n - m + 1,
            forall|j: int| 0 <= j < i ==> #[trigger] hay@.subrange(j, j + m) != needle@,
        decreases n - m + 1 - i,
    {
        let mut k: usize = 0;
        let mut same = true;
        while k < m
            invariant
                n == hay@.len(),
                m == needle@.len(),
                i + m <= n,
                k <= m,
                same ==> forall|t: int| 0 <= t < k ==> hay@[i + t] == needle@[t],
                !same ==> hay@.subrange(i as int, i + m) != needle@,
            decreases m - k,
        {
            if hay.get_char(i + k) != needle.get_char(k) {
                same = false;
                assert(hay@.subrange(i as int, i + m)[k as int] != needle@[k as int]);
            }
            k = k + 1;
        }
        if same {
            assert(hay@.subrange(i as int, i + m) =~= needle@);
            return true;
        }
        if i == n - m {
            return false;
        }
        i = i + 1;
    }
    false
}

/// Whether a symbol name belongs to the capture routine itself.
pub fn is_capture_routine(name: &str) -> (r: bool)
    ensures
        r == is_capture_frame(name@),
{
    contains_text(name, CAPTURE_ROUTINE_MARK)
}

/// The rendered line of one frame.
pub fn render_symbol(s: &SymbolInfo, with_lines: bool) -> (r: String)
    ensures
        r@ == symbol_line(*s, with_lines),
{
    let mut r = String::from_str("\n");
    match &s.name {
        Some(n) => r.append(n.as_str()),
        None => {},
    }
    match s.line {
        Some(l) => {
            if with_lines {
                r.append(" line: ");
                let d = decimal_string(l as u64);
                r.append(d.as_str());
            }
        },
        None => {},
    }
    r
}

/// The rendered trace of the given frames.
pub fn render_symbols(entries: &Vec<SymbolInfo>, with_lines: bool) -> (r: String)
    ensures
        r@ == backtrace_text(entries@, with_lines),
{
    let mut r = String::new();
    let mut i: usize = 0;
    while i < entries.len()
        invariant
            i <= entries@.len(),
            r@ == backtrace_text(entries@.subrange(0, i as int), with_lines),
        decreases entries@.len() - i,
    {
        let line = render_symbol(&entries[i], with_lines);
        r.append(line.as_str());
        proof {
            let next = entries@.subrange(0, i + 1);
            assert(next.drop_last() =~= entries@.subrange(0, i as int));
        }
        i = i + 1;
    }
    assert(entries@.subrange(0, entries@.len() as int) =~= entries@);
    r
}

/// The rendered trace of the first `amount` symbols, in stack order, that the
/// filter kept (`keeps[i]` for `symbols[i]`), that have a name, and that are
/// not frames of the capture routine.
pub fn render_selected(symbols: &Vec<SymbolInfo>, keeps: &Vec<bool>, amount: u16, with_lines: bool) -> (r: String)
    requires
        symbols@.len() == keeps@.len(),
    ensures
        r@ == backtrace_text(selected(symbols@, keeps@, amount as nat), with_lines),
{
    let mut out = String::new();
    let mut count: u16 = 0;
    let mut i: usize = 0;
    while i < symbols.len()
        invariant
            symbols@.len() == keeps@.len(),
            i <= symbols@.len(),
            count <= amount,
            count as nat == selected(symbols@.take(i as int), keeps@.take(i as int), amount as nat).len(),
            out@ == backtrace_text(selected(symbols@.take(i as int), keeps@.take(i as int), amount as nat), with_lines),
        decreases symbols@.len() - i,
    {
        let ghost before = accepted(symbols@.take(i as int), keeps@.take(i as int));
        proof {
            assert(symbols@.take(i + 1).drop_last() =~= symbols@.take(i as int));
            assert(keeps@.take(i + 1).drop_last() =~= keeps@.take(i as int));
            assert(symbols@.take(i + 1).last() == symbols@[i as int]);
            assert(keeps@.take(i + 1).last() == keeps@[i as int]);
        }
        let s = &symbols[i];
        let mut take = false;
        if keeps[i] && count < amount {
            match &s.name {
                Some(n) => {
                    take = !is_capture_routine(n.as_str());
                },
                None => {},
            }
        }
        if take {
            let line = render_symbol(s, with_lines);
            out.append(line.as_str());
            proof {
                let after = accepted(symbols@.take(i + 1), keeps@.take(i + 1));
                assert(after == before.push(symbols@[i as int]));
                assert(before.len() == count);
                assert(selected(symbols@.take(i + 1), keeps@.take(i + 1), amount as nat) =~= before.push(symbols@[i as int]));
                assert(before.push(symbols@[i as int]).drop_last() =~= before);
            }
            count = count + 1;
        } else {
            proof {
                let after = accepted(symbols@.take(i + 1), keeps@.take(i + 1));
                if is_accepted(symbols@[i as int], keeps@[i as int]) {
                    assert(count == amount);
                    assert(after == before.push(symbols@[i as int]));
                    assert(after.take(amount as int) =~= before.take(amount as int));
                    if before.len() == amount {
                        assert(before.take(amount as int) =~= before);
                    }
                } else {
                    assert(after == before);
                }
            }
        }
        i = i + 1;
    }
    proof {
        assert(symbols@.take(symbols@.len() as int) =~= symbols@);
        assert(keeps@.take(keeps@.len() as int) =~= keeps@);
    }
    out
}

/// The filter's verdict on each symbol.
pub open spec fn kept_by<B: BacktraceFilter>(symbols: Seq<SymbolInfo>) -> Seq<bool> {
    symbols.map_values(|s: SymbolInfo| B::keeps(s))
}

/// The rendering, under filter `B`, of the first `amount` accepted symbols of
/// a resolved stack.
pub open spec fn filtered_backtrace<B: BacktraceFilter>(symbols: Seq<SymbolInfo>, amount: u16) -> Seq<char> {
    backtrace_text(selected(symbols, kept_by::<B>(symbols), amount as nat), B::line_numbers())
}

/// Chooses which stack frames are worth showing in logs; for instance only
/// those whose symbol name starts with one of the service's own modules.
pub trait BacktraceFilter {
    /// Whether the filter keeps a symbol.
    spec fn keeps(symbol: SymbolInfo) -> bool;

    /// Whether rendered frames carry their line number (in development
    /// builds, for instance).
    spec fn line_numbers() -> bool;

    /// Only the symbols for which this is `true` are kept.
    fn filter(symbol: &SymbolInfo) -> (r: bool)
        ensures
            r == Self::keeps(*symbol),
    ;

    fn with_line_numbers() -> (r: bool)
        ensures
            r == Self::line_numbers(),
    ;
}

/// A rendering of the current stack: the first `amount` frames, innermost
/// first, that the filter keeps and that have a name, never counting or
/// showing a frame of the capture routine itself. Frames are resolved
/// only until `amount` of them are accepted.
pub fn get_backtrace_info<B: BacktraceFilter>(amount: u16) -> (r: String)
    ensures
        exists|symbols: Seq<SymbolInfo>| r@ == #[trigger] filtered_backtrace::<B>(symbols, amount),
{
    let frames = stack_frames();
    let mut symbols: Vec<SymbolInfo> = Vec::new();
    let mut keeps: Vec<bool> = Vec::new();
    let mut count: usize = 0;
    let mut f: usize = 0;
    while f < frames.len() && count < amount as usize
        invariant
            keeps@ == kept_by::<B>(symbols@),
        decreases frames@.len() - f,
    {
        let mut found = frame_symbols(&frames[f]);
        let ghost before = symbols@;
        let mut j: usize = 0;
        while j < found.len()
            invariant
                symbols@ == before,
                j <= found@.len(),
                keeps@ == kept_by::<B>(before + found@.take(j as int)),
            decreases found@.len() - j,
        {
            let keep = B::filter(&found[j]);
            let named = match &found[j].name {
                Some(n) => !is_capture_routine(n.as_str()),
                None => false,
            };
            if keep && named && count < usize::MAX {
                count = count + 1;
            }
            keeps.push(keep);
            assert((before + found@.take(j + 1)) =~= (before + found@.take(j as int)).push(found@[j as int]));
            assert(keeps@ =~= kept_by::<B>(before + found@.take(j + 1)));
            j = j + 1;
        }
        assert(found@.take(found@.len() as int) =~= found@);
        symbols.append(&mut found);
        f = f + 1;
    }
    let with_lines = B::with_line_numbers();
    let r = render_selected(&symbols, &keeps, amount, with_lines);
    assert(r@ == filtered_backtrace::<B>(symbols@, amount));
    r
}

} // verus!
