//! What the log shows, told by what a reader of it sees: numbers as numerals, every
//! line with its own words, and every byte that is written.

use vstd::prelude::*;
use crate::d3d::{Creator, DeviceHook};
use crate::logger::{log, log_file, LogFile, LogOutput, Logger};
use crate::message::Message;
use crate::text::{push_address, push_bits, push_decimal, push_hexadecimal, push_truth};

verus! {

/// The character is a digit in `base`: one of `0` to `9` and, above ten, `a` to `f`.
pub open spec fn is_digit(c: char, base: int) -> bool {
    ||| '0' <= c && c <= '9' && (c as int) - ('0' as int) < base
    ||| 'a' <= c && c <= 'f' && (c as int) - ('a' as int) + 10 < base
}

/// The number that a digit stands for.
pub open spec fn worth(c: char) -> int {
    if c <= '9' {
        c as int - '0' as int
    } else {
        c as int - 'a' as int + 10
    }
}

/// The number that is read from a sequence of digits.
pub open spec fn reading(s: Seq<char>, base: int) -> int
    decreases s.len(),
{
    if s.len() == 0 {
        0
    } else {
        reading(s.drop_last(), base) * base + worth(s.last())
    }
}

/// The characters are the numeral of `n` in `base`: digits that read as `n`, without
/// a leading zero unless that is all.
pub open spec fn is_numeral(s: Seq<char>, base: int, n: int) -> bool {
    &&& s.len() > 0
    &&& forall|i: int| 0 <= i < s.len() ==> is_digit(#[trigger] s[i], base)
    &&& s[0] == '0' ==> s.len() == 1
    &&& reading(s, base) == n
}

proof fn lemma_reading_grows(s: Seq<char>, base: int)
    requires
        base == 10 || base == 16,
        s.len() > 0,
        forall|i: int| 0 <= i < s.len() ==> is_digit(#[trigger] s[i], base),
    ensures
        reading(s, base) >= 0,
        s[0] != '0' ==> reading(s, base) >= 1,
    decreases s.len(),
{
    assert(is_digit(s[s.len() - 1], base));
    if s.len() > 1 {
        let t = s.drop_last();
        assert forall|i: int| 0 <= i < t.len() implies is_digit(#[trigger] t[i], base) by {
            assert(t[i] == s[i]);
        }
        lemma_reading_grows(t, base);
        assert(t[0] == s[0]);
        let r = reading(t, base);
        assert(r * base >= r) by (nonlinear_arith)
            requires
                r >= 0,
                base >= 1,
        ;
    } else {
        assert(s.drop_last() =~= Seq::<char>::empty());
        assert(reading(s.drop_last(), base) == 0);
        assert(0 * base == 0) by (nonlinear_arith);
        assert(is_digit(s[0], base));
    }
}

/// A number has one numeral in a base.
pub proof fn law_one_numeral(s: Seq<char>, t: Seq<char>, base: int, n: int)
    requires
        base == 10 || base == 16,
        is_numeral(s, base, n),
        is_numeral(t, base, n),
    ensures
        s == t,
    decreases s.len(),
{
    lemma_numeral_splits(s, base, n);
    lemma_numeral_splits(t, base, n);
    if s.len() > 1 {
        law_one_numeral(s.drop_last(), t.drop_last(), base, n / base);
        assert(s =~= s.drop_last().push(s.last()));
        assert(t =~= t.drop_last().push(t.last()));
    } else {
        assert(s =~= seq![s.last()]);
        assert(t =~= seq![t.last()]);
    }
}

proof fn lemma_numeral_splits(s: Seq<char>, base: int, n: int)
    requires
        base == 10 || base == 16,
        is_numeral(s, base, n),
    ensures
        is_digit(s.last(), base),
        worth(s.last()) == n % base,
        n >= 0,
        s.len() > 1 <==> n >= base,
        s.len() > 1 ==> is_numeral(s.drop_last(), base, n / base),
{
    lemma_reading_grows(s, base);
    assert(is_digit(s[s.len() - 1], base));
    let t = s.drop_last();
    if s.len() > 1 {
        assert forall|i: int| 0 <= i < t.len() implies is_digit(#[trigger] t[i], base) by {
            assert(t[i] == s[i]);
        }
        assert(t[0] == s[0]);
        lemma_reading_grows(t, base);
        let r = reading(t, base);
        let w = worth(s.last());
        assert(r * base + w >= base && (r * base + w) / base == r && (r * base + w) % base == w)
            by (nonlinear_arith)
            requires
                r >= 1,
                0 <= w < base,
        ;
    } else {
        assert(t =~= Seq::<char>::empty());
        assert(reading(t, base) == 0);
        assert(0 * base == 0) by (nonlinear_arith);
    }
}

proof fn lemma_digits_are_numeral(n: nat, base: nat)
    requires
        base == 10 || base == 16,
    ensures
        is_numeral(crate::text::digits(n, base), base as int, n as int),
    decreases n,
{
    let s = crate::text::digits(n, base);
    if n < base {
        assert(s.drop_last() =~= Seq::<char>::empty());
        assert(reading(s.drop_last(), base as int) == 0);
        assert(0 * (base as int) == 0) by (nonlinear_arith);
    } else {
        lemma_digits_are_numeral(n / base, base);
        let t = crate::text::digits(n / base, base);
        assert(s.drop_last() =~= t);
        assert forall|i: int| 0 <= i < s.len() implies is_digit(#[trigger] s[i], base as int) by {
            if i < t.len() {
                assert(s[i] == t[i]);
            }
        }
        assert(s[0] == t[0]);
        if t[0] == '0' {
            assert(t =~= seq!['0']);
            assert(t.drop_last() =~= Seq::<char>::empty());
            assert(reading(t.drop_last(), base as int) == 0);
            assert(0 * (base as int) == 0) by (nonlinear_arith);
            assert(reading(t, base as int) == 0);
            assert(n / base >= 1);
        }
        let q = (n / base) as int;
        let r = (n % base) as int;
        assert(worth(s.last()) == r);
        assert(q * (base as int) + r == n) by (nonlinear_arith)
            requires
                base >= 1,
                q == n as int / base as int,
                r == n as int % base as int,
        ;
    }
}

proof fn lemma_decimal(d: Seq<char>, n: nat)
    requires
        is_numeral(d, 10, n as int),
    ensures
        d == crate::text::decimal(n),
{
    lemma_digits_are_numeral(n, 10);
    law_one_numeral(d, crate::text::decimal(n), 10, n as int);
}

proof fn lemma_hexadecimal(d: Seq<char>, n: nat)
    requires
        is_numeral(d, 16, n as int),
    ensures
        d == crate::text::hexadecimal(n),
{
    lemma_digits_are_numeral(n, 16);
    law_one_numeral(d, crate::text::hexadecimal(n), 16, n as int);
}

/// The numeral shows the 32 bits of `n`: a number below two to the power of 32 that
/// differs from `n` by a multiple of it.
pub open spec fn shows_bits(d: Seq<char>, n: i32) -> bool {
    exists|bits: int|
        0 <= bits < 0x1_0000_0000 && (bits - n) % 0x1_0000_0000 == 0 && #[trigger] is_numeral(
            d,
            16,
            bits,
        )
}

proof fn lemma_bits(d: Seq<char>, n: i32)
    requires
        shows_bits(d, n),
    ensures
        d == crate::text::hexadecimal(crate::text::bits_of(n)),
{
    let bits = choose|bits: int|
        0 <= bits < 0x1_0000_0000 && (bits - n) % 0x1_0000_0000 == 0 && #[trigger] is_numeral(
            d,
            16,
            bits,
        );
    assert(bits == crate::text::bits_of(n));
    lemma_hexadecimal(d, crate::text::bits_of(n));
}

/// A number is appended in decimal, behind what was there.
pub proof fn law_decimal_is_appended(out: &mut String, n: u64, d: Seq<char>)
    requires
        call_ensures(push_decimal, (out, n), ()),
        is_numeral(d, 10, n as int),
    ensures
        final(out)@ == old(out)@ + d,
{
    lemma_decimal(d, n as nat);
}

/// A number is appended in hexadecimal, behind what was there.
pub proof fn law_hexadecimal_is_appended(out: &mut String, n: u64, d: Seq<char>)
    requires
        call_ensures(push_hexadecimal, (out, n), ()),
        is_numeral(d, 16, n as int),
    ensures
        final(out)@ == old(out)@ + d,
{
    lemma_hexadecimal(d, n as nat);
}

/// The bits of a status are appended in hexadecimal, behind what was there.
pub proof fn law_bits_are_appended(out: &mut String, n: i32, d: Seq<char>)
    requires
        call_ensures(push_bits, (out, n), ()),
        shows_bits(d, n),
    ensures
        final(out)@ == old(out)@ + d,
{
    lemma_bits(d, n);
}

/// An address is appended in hexadecimal with its prefix, behind what was there.
pub proof fn law_address_is_appended(out: &mut String, n: usize, d: Seq<char>)
    requires
        call_ensures(push_address, (out, n), ()),
        is_numeral(d, 16, n as int),
    ensures
        final(out)@ == old(out)@ + ("0x"@ + d),
{
    lemma_hexadecimal(d, n as nat);
}

/// A truth value is appended in words, behind what was there.
pub proof fn law_truth_is_appended(out: &mut String, b: bool)
    requires
        call_ensures(push_truth, (out, b), ()),
    ensures
        b ==> final(out)@ == old(out)@ + "true"@,
        !b ==> final(out)@ == old(out)@ + "false"@,
{
}

/// Every number, and every status, has a numeral: the laws on lines leave none out.
pub proof fn law_numerals_exist(n: nat, status: i32)
    ensures
        exists|d: Seq<char>| is_numeral(d, 10, n as int),
        exists|d: Seq<char>| is_numeral(d, 16, n as int),
        exists|d: Seq<char>| shows_bits(d, status),
{
    lemma_digits_are_numeral(n, 10);
    lemma_digits_are_numeral(n, 16);
    let bits: nat = if status < 0 {
        (status + 0x1_0000_0000) as nat
    } else {
        status as nat
    };
    lemma_digits_are_numeral(bits, 16);
    assert(shows_bits(crate::text::digits(bits, 16), status));
}

/// The lines that always read the same.
pub proof fn law_fixed_lines(message: Message, res: String)
    requires
        call_ensures(Message::text, (&message,), res),
    ensures
        message is Banner ==> res@
            == "=== sd_video_hook v16.0 (retour + StretchRect BEFORE EndScene + correct offsets) ==="@,
        message is TableCopied ==> res@ == "[VT-COPY] IDirect3D9 vtable copied"@,
        message == (Message::CreatorHooked { creator: Creator::Direct3DCreate9 }) ==> res@
            == "[OK] Direct3DCreate9 hooked"@,
        message == (Message::CreatorHooked { creator: Creator::Direct3DCreate9Ex }) ==> res@
            == "[OK] Direct3DCreate9Ex hooked"@,
        message == (Message::DeviceHooked { hook: DeviceHook::EndScene }) ==> res@
            == "[OK] EndScene hooked"@,
        message == (Message::DeviceHooked { hook: DeviceHook::SetRenderTarget }) ==> res@
            == "[OK] SetRT hooked"@,
        message == (Message::DeviceHooked { hook: DeviceHook::SetRenderState }) ==> res@
            == "[OK] SetRenderState hooked"@,
{
}

/// The lines that show one address, each with the address it is about.
pub proof fn law_address_lines(message: Message, address: usize, d: Seq<char>, res: String)
    requires
        call_ensures(Message::text, (&message,), res),
        is_numeral(d, 16, address as int),
    ensures
        message == (Message::Preloaded { module: address }) ==> res@ == "[PRELOAD] d3d9.dll @ "@ + (
        "0x"@ + d),
        message == (Message::Module { module: address }) ==> res@ == "[MOD] d3d9.dll @ "@ + ("0x"@
            + d),
        message == (Message::RootCreated { object: address }) ==> res@ == "[D3D9] call, result="@
            + ("0x"@ + d),
        message == (Message::HooksInstalled { device: address }) ==> res@ == "[DEV] "@ + ("0x"@ + d)
            + " — hooks installed"@,
        message == (Message::VideoSurface { surface: address }) ==> res@ == "[SRT] video surface "@
            + ("0x"@ + d),
{
    lemma_hexadecimal(d, address as nat);
}

/// The line on a missing library ends with the reason as it was given.
pub proof fn law_error_line(error: String, res: String)
    requires
        call_ensures(Message::text, (&Message::NoModule { error },), res),
    ensures
        res@ == "[ERR] "@ + error@,
{
}

/// The worker's report shows the tick in decimal, whether a root object is captured,
/// the video surface in hexadecimal and the forced frames in decimal.
pub proof fn law_report_line(
    tick: u32,
    captured: bool,
    surface: usize,
    forced: usize,
    t: Seq<char>,
    s: Seq<char>,
    f: Seq<char>,
    res: String,
)
    requires
        call_ensures(
            Message::text,
            (&Message::Heartbeat { tick, captured, surface, forced },),
            res,
        ),
        is_numeral(t, 10, tick as int),
        is_numeral(s, 16, surface as int),
        is_numeral(f, 10, forced as int),
    ensures
        captured ==> res@ == "[STATE] tick="@ + t + " dev="@ + "true"@ + " rt=0x"@ + s
            + " forced="@ + f,
        !captured ==> res@ == "[STATE] tick="@ + t + " dev="@ + "false"@ + " rt=0x"@ + s
            + " forced="@ + f,
{
    lemma_decimal(t, tick as nat);
    lemma_hexadecimal(s, surface as nat);
    lemma_decimal(f, forced as nat);
}

/// The line on a created device shows the bits of the status and the address.
pub proof fn law_device_created_line(
    status: i32,
    device: usize,
    b: Seq<char>,
    d: Seq<char>,
    res: String,
)
    requires
        call_ensures(Message::text, (&Message::DeviceCreated { status, device },), res),
        shows_bits(b, status),
        is_numeral(d, 16, device as int),
    ensures
        res@ == "[CreateDevice] hr=0x"@ + b + " out="@ + ("0x"@ + d),
{
    lemma_bits(b, status);
    lemma_hexadecimal(d, device as nat);
}

/// The line on a bound render target shows the number of the call, the address, width
/// by height in decimal, the format in hexadecimal, and whether it is a video surface.
pub proof fn law_render_target_line(
    message: Message,
    video: bool,
    n: usize,
    surface: usize,
    width: u32,
    height: u32,
    format: u32,
    dn: Seq<char>,
    ds: Seq<char>,
    dw: Seq<char>,
    dh: Seq<char>,
    df: Seq<char>,
    res: String,
)
    requires
        message == (Message::RenderTarget { n, surface, width, height, format, video }),
        call_ensures(Message::text, (&message,), res),
        is_numeral(dn, 10, n as int),
        is_numeral(ds, 16, surface as int),
        is_numeral(dw, 10, width as int),
        is_numeral(dh, 10, height as int),
        is_numeral(df, 16, format as int),
    ensures
        video ==> res@ == "[SRT] #"@ + dn + ": "@ + ("0x"@ + ds) + " "@ + dw + "x"@ + dh
            + " fmt=0x"@ + df + " video="@ + "true"@,
        !video ==> res@ == "[SRT] #"@ + dn + ": "@ + ("0x"@ + ds) + " "@ + dw + "x"@ + dh
            + " fmt=0x"@ + df + " video="@ + "false"@,
{
    lemma_decimal(dn, n as nat);
    lemma_hexadecimal(ds, surface as nat);
    lemma_decimal(dw, width as nat);
    lemma_decimal(dh, height as nat);
    lemma_hexadecimal(df, format as nat);
}

/// The line on a forced draw shows its number and the bits of its status.
pub proof fn law_forced_draw_line(
    n: usize,
    status: i32,
    dn: Seq<char>,
    b: Seq<char>,
    res: String,
)
    requires
        call_ensures(Message::text, (&Message::ForcedDraw { n, status },), res),
        is_numeral(dn, 10, n as int),
        shows_bits(b, status),
    ensures
        res@ == "[FORCE-RS] #"@ + dn + " hr=0x"@ + b,
{
    lemma_decimal(dn, n as nat);
    lemma_bits(b, status);
}

/// The line on the end of a frame shows its number.
pub proof fn law_frame_line(n: usize, d: Seq<char>, res: String)
    requires
        call_ensures(Message::text, (&Message::FrameEnded { n },), res),
        is_numeral(d, 10, n as int),
    ensures
        res@ == "[ES] #"@ + d,
{
    lemma_decimal(d, n as nat);
}

/// A line is written as the UTF-8 encoding of its message with carriage return and
/// line feed: to the file if there is one, and to the debugger, with a zero byte at
/// the end, if the message holds no NUL. The two do not depend on each other.
pub proof fn law_line_is_written(logger: Logger, msg: &str, out: LogOutput)
    requires
        call_ensures(Logger::line, (&logger, msg), out),
    ensures
        logger.file ==> out.file is Some && out.file->0@ == vstd::utf8::encode_utf8(
            msg@ + seq!['\r', '\n'],
        ),
        !logger.file ==> out.file is None,
        !msg@.contains('\0') ==> out.debugger is Some && out.debugger->0@
            == vstd::utf8::encode_utf8(msg@ + seq!['\r', '\n']).push(0),
        msg@.contains('\0') ==> out.debugger is None,
{
    reveal_strlit("\r\n");
    assert("\r\n"@ =~= seq!['\r', '\n']);
    crate::logger::law_debugger_skips_only_nul(out, logger, msg@);
}

/// Logging writes what the logger writes, and without a logger nothing.
pub proof fn law_log_is_the_logger(
    logger: Logger,
    msg: &str,
    had: LogOutput,
    lost: LogOutput,
)
    requires
        call_ensures(log, (Some(&logger), msg), had),
        call_ensures(log, (None, msg), lost),
    ensures
        logger.file ==> had.file is Some && had.file->0@ == vstd::utf8::encode_utf8(
            msg@ + seq!['\r', '\n'],
        ),
        !logger.file ==> had.file is None,
        !msg@.contains('\0') ==> had.debugger is Some && had.debugger->0@
            == vstd::utf8::encode_utf8(msg@ + seq!['\r', '\n']).push(0),
        msg@.contains('\0') ==> had.debugger is None,
        lost.file is None,
        lost.debugger is None,
{
    reveal_strlit("\r\n");
    assert("\r\n"@ =~= seq!['\r', '\n']);
    crate::logger::law_debugger_skips_only_nul(had, logger, msg@);
}

/// A logger has a file exactly if one could be opened.
pub proof fn law_logger_knows_its_file(opened: bool, res: Logger)
    requires
        call_ensures(Logger::new, (opened,), res),
    ensures
        res.file == opened,
{
}

/// The log file has its fixed name and lies in the directory that was given, if any.
pub proof fn law_log_file<P>(exe_dir: Option<P>, res: LogFile<P>)
    requires
        call_ensures(log_file::<P>, (exe_dir,), res),
    ensures
        res.dir == exe_dir,
        res.name@ == "hook_rebuilt.log"@,
{
}

} // verus!
