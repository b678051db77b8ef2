//! What holds of the texts that are made, of the panel, and of the settings.
use crate::config::{
    default_settings, held_by_file, port_within, starting, Config, Found, Places, Saving,
};
use crate::diagnostics::{
    digits_value, event_line, figured, lamp, ordered, ordering_keeps_every_number, shown, Latency,
    PanelModel,
};
use crate::logging::{logged, outgrown, room_behind, stamped, zeroed};
use crate::runtime::stall_report;
use crate::single::Single;
use crate::spiceapi::{in_flight, quoted_text, snapshot, yes_no, Client, Figures};
use crate::text::{
    bytes_before, contents, dec, digit, joined, padded_left, padded_right, signed_dec,
};
use crate::touchbridge::Stats;
use crate::utf16::{before_nul, utf16_text};
use crate::wire::{framed, json_bool, json_char, unframed, SeenErrors};
use vstd::prelude::*;
use vstd::string::*;

verus! {

/// Whether a character is a decimal digit.
pub open spec fn is_digit(c: char) -> bool {
    '0' <= c <= '9'
}

/// A number reads back from its digits, which are nothing but digits and start with no zero
/// unless it is zero.
pub proof fn a_number_reads_back(n: nat)
    ensures
        digits_value(dec(n)) == Some(n),
        dec(n).len() > 0,
        forall|i: int| 0 <= i < dec(n).len() ==> is_digit(#[trigger] dec(n)[i]),
        n > 0 ==> dec(n)[0] != '0',
        n < 10 <==> dec(n).len() == 1,
    decreases n,
{
    if n < 10 {
        assert(dec(n).last() == digit(n));
    } else {
        a_number_reads_back(n / 10);
        assert(dec(n).drop_last() =~= dec(n / 10));
        assert(dec(n).last() == digit(n % 10));
        assert forall|i: int| 0 <= i < dec(n).len() implies is_digit(#[trigger] dec(n)[i]) by {
            if i < dec(n).len() - 1 {
                assert(dec(n)[i] == dec(n / 10)[i]);
            }
        }
        assert(dec(n)[0] == dec(n / 10)[0]);
    }
}

/// A negative number is its minus sign and the digits of how far below zero it is; any other
/// is its digits.
pub proof fn a_signed_number_reads_back(n: int)
    ensures
        n < 0 ==> signed_dec(n)[0] == '-' && digits_value(signed_dec(n).skip(1)) == Some((-n) as nat),
        n >= 0 ==> digits_value(signed_dec(n)) == Some(n as nat),
{
    if n < 0 {
        a_number_reads_back((-n) as nat);
        assert(signed_dec(n).skip(1) =~= dec((-n) as nat));
    } else {
        a_number_reads_back(n as nat);
    }
}

/// A run of characters has a value exactly where there are some and all are digits; one more
/// digit makes it ten times as large and adds the digit.
pub proof fn digits_are_read_from_the_left(s: Seq<char>, c: char)
    ensures
        digits_value(s) is Some <==> s.len() > 0 && forall|i: int|
            0 <= i < s.len() ==> is_digit(#[trigger] s[i]),
        is_digit(c) && s.len() == 0 ==> digits_value(s.push(c)) == Some(
            (c as int - 48) as nat,
        ),
        is_digit(c) ==> (digits_value(s) matches Some(v) ==> digits_value(s.push(c)) == Some(
            (10 * v + (c as int - 48)) as nat,
        )),
    decreases s.len(),
{
    assert(s.push(c).drop_last() =~= s);
    if s.len() > 0 {
        digits_are_read_from_the_left(s.drop_last(), c);
        if digits_value(s) is Some {
            assert forall|i: int| 0 <= i < s.len() implies is_digit(#[trigger] s[i]) by {
                if i < s.len() - 1 {
                    assert(s.drop_last()[i] == s[i]);
                }
            }
        }
        if forall|i: int| 0 <= i < s.len() ==> is_digit(#[trigger] s[i]) {
            assert(is_digit(s[s.len() - 1]));
            assert forall|i: int| 0 <= i < s.len() - 1 implies is_digit(
                #[trigger] s.drop_last()[i],
            ) by {
                assert(s[i] == s.drop_last()[i]);
            }
        }
    }
}

/// Padding brings text to its width and no further: the text stands whole at its end of it,
/// and everything else is fill.
pub proof fn padding_only_fills(s: Seq<char>, c: char, width: nat, i: int)
    ensures
        s.len() >= width ==> padded_left(s, c, width) == s && padded_right(s, c, width) == s,
        s.len() < width ==> {
            let l = padded_left(s, c, width);
            let r = padded_right(s, c, width);
            &&& l.len() == width && r.len() == width
            &&& 0 <= i < width - s.len() ==> l[i] == c
            &&& 0 <= i < s.len() ==> l[width - s.len() + i] == s[i]
            &&& 0 <= i < s.len() ==> r[i] == s[i]
            &&& s.len() <= i < width ==> r[i] == c
        },
{
}

/// Joining puts the separator between neighbours and nowhere else: one part is itself, and
/// two runs of parts are joined by joining each and putting the separator between them.
pub proof fn joining_separates_neighbours(a: Seq<Seq<char>>, b: Seq<Seq<char>>, sep: Seq<char>)
    ensures
        joined(Seq::empty(), sep).len() == 0,
        a.len() == 1 ==> joined(a, sep) == a[0],
        a.len() > 0 && b.len() > 0 ==> joined(a + b, sep) == joined(a, sep) + sep + joined(b, sep),
    decreases b.len(),
{
    if a.len() > 0 && b.len() > 0 {
        assert((a + b).drop_last() =~= a + b.drop_last());
        assert((a + b).last() == b.last());
        if b.len() == 1 {
            assert(a + b.drop_last() =~= a);
        } else {
            joining_separates_neighbours(a, b.drop_last(), sep);
            assert(joined(a + b, sep) =~= joined(a, sep) + sep + joined(b, sep));
        }
    }
}

/// Of two names the one with the lesser byte stands first, at the first byte in which they
/// differ; and a name stands before everything that goes on from it.
pub proof fn the_first_differing_byte_decides(a: Seq<u8>, b: Seq<u8>, n: int)
    requires
        0 <= n <= a.len(),
        n < b.len(),
        forall|i: int| 0 <= i < n ==> a[i] == b[i],
        n < a.len() ==> a[n] != b[n],
    ensures
        n < a.len() ==> (bytes_before(a, b) <==> a[n] < b[n]),
        n == a.len() ==> bytes_before(a, b),
    decreases n,
{
    if n > 0 {
        the_first_differing_byte_decides(a.drop_first(), b.drop_first(), n - 1);
    }
}

/// Zeros in front change no value: a number reads back from its digits behind any of them,
/// and there are exactly as many characters as asked for unless it needs more.
pub proof fn a_zeroed_number_reads_back(n: nat, width: nat)
    ensures
        digits_value(zeroed(n, width)) == Some(n),
        dec(n).len() <= width ==> zeroed(n, width).len() == width,
        dec(n).len() > width ==> zeroed(n, width) == dec(n),
{
    a_number_reads_back(n);
    if dec(n).len() < width {
        lemma_zeros(dec(n), (width - dec(n).len()) as nat);
    }
}

proof fn lemma_zeros(s: Seq<char>, n: nat)
    requires
        digits_value(s) is Some,
    ensures
        digits_value(crate::text::repeat('0', n) + s) == digits_value(s),
    decreases s.len(),
{
    let z = crate::text::repeat('0', n);
    let all = z + s;
    assert(all.drop_last() =~= z + s.drop_last());
    assert(all.last() == s.last());
    if s.len() == 1 {
        if n > 0 {
            assert(all.drop_last() =~= z);
            lemma_all_zeros(n);
        } else {
            assert(all =~= s);
        }
    } else {
        lemma_zeros(s.drop_last(), n);
    }
}

proof fn lemma_all_zeros(n: nat)
    requires
        n > 0,
    ensures
        digits_value(crate::text::repeat('0', n)) == Some(0nat),
    decreases n,
{
    let z = crate::text::repeat('0', n);
    if n > 1 {
        lemma_all_zeros((n - 1) as nat);
        assert(z.drop_last() =~= crate::text::repeat('0', (n - 1) as nat));
    }
}

/// A time stamp reads back: it is minutes, seconds and milliseconds that add up to the time,
/// the seconds below sixty and the milliseconds below a thousand, at least two, exactly two
/// and exactly three digits long.
pub proof fn a_stamp_reads_back(ms: nat, at: int)
    requires
        at == zeroed(ms / 60_000, 2).len(),
    ensures
        ({
            let s = stamped(ms);
            let minutes = digits_value(s.take(at));
            let seconds = digits_value(s.subrange(at + 1, at + 3));
            let millis = digits_value(s.skip(at + 4));
            &&& at >= 2
            &&& s.len() == at + 7
            &&& s[at] == ':' && s[at + 3] == '.'
            &&& minutes is Some && seconds is Some && millis is Some
            &&& seconds->0 < 60 && millis->0 < 1000
            &&& minutes->0 * 60_000 + seconds->0 * 1000 + millis->0 == ms
        }),
{
    reveal_strlit(":");
    reveal_strlit(".");
    let (a, b, c) = (zeroed(ms / 60_000, 2), zeroed((ms / 1000) % 60, 2), zeroed(ms % 1000, 3));
    a_zeroed_number_reads_back(ms / 60_000, 2);
    a_zeroed_number_reads_back((ms / 1000) % 60, 2);
    a_zeroed_number_reads_back(ms % 1000, 3);
    lemma_short((ms / 1000) % 60);
    lemma_short(ms % 1000);
    let s = stamped(ms);
    assert(s.take(at) =~= a);
    assert(s.subrange(at + 1, at + 3) =~= b);
    assert(s.skip(at + 4) =~= c);
}

proof fn lemma_short(n: nat)
    ensures
        n < 100 ==> dec(n).len() <= 2,
        n < 1000 ==> dec(n).len() <= 3,
{
    reveal_with_fuel(dec, 4);
}

/// A line of the log ends with its message and a line break, and begins with a stamp in
/// brackets; its length grows with the message alone where stamp and level are the same.
pub proof fn a_line_holds_its_message(ms: nat, level: Seq<char>, message: Seq<char>)
    ensures
        ({
            let s = logged(ms, level, message);
            let n = stamped(ms).len() as int;
            &&& s.first() == '['
            &&& s.subrange(1, 1 + n) == stamped(ms)
            &&& s[1 + n] == ']'
            &&& s.last() == '\n'
            &&& s.drop_last().skip(s.len() - 1 - message.len()) == message
            &&& level.len() <= 5 ==> s.len() == n + message.len() + 12
            &&& s.subrange(4 + n, 4 + n + level.len()) == level
        }),
{
    reveal_strlit("[");
    reveal_strlit("] [");
    reveal_strlit("] ");
    reveal_strlit("\n");
    let s = logged(ms, level, message);
    let n = stamped(ms).len() as int;
    assert(s.subrange(1, 1 + n) =~= stamped(ms));
    assert(s.drop_last().skip(s.len() - 1 - message.len()) =~= message);
    assert(s.subrange(4 + n, 4 + n + level.len()) =~= level);
}

/// The log takes 4096 waiting lines and a file of five million bytes, and no more.
pub proof fn the_log_is_bounded(n: u64)
    ensures
        room_behind(n) <==> n <= 4095,
        outgrown(n) <==> n >= 5_000_001,
{
}

/// The lines of the panel: with one more there is one more, up to five; the new one is last,
/// and the others are the latest of those before, in their order.
pub proof fn one_more_line_is_shown(log: Seq<Seq<char>>, line: Seq<char>, i: int)
    requires
        log.len() <= 5,
    ensures
        ({
            let after = shown(log, line);
            &&& log.len() < 5 ==> after.len() == log.len() + 1
            &&& log.len() == 5 ==> after.len() == 5
            &&& after.last() == line
            &&& 0 <= i < after.len() - 1 ==> after[i] == log[log.len() - after.len() + 1 + i]
        }),
{
}

/// An event of a button is counted once, and shown last. It touches no other count and no
/// measurement.
pub proof fn a_button_event_counts_once(m: PanelModel, name: Seq<char>, down: bool, ms: nat)
    requires
        m.wf(),
        m.digital_events < u64::MAX,
    ensures
        ({
            let after = m.pressed(name, down, ms);
            &&& after.digital_events == m.digital_events + 1
            &&& after.analog_events == m.analog_events
            &&& after.latency == m.latency
            &&& after.log.last() == event_line(ms, name, down)
            &&& after.keys.len() == 12
        }),
{
}

/// The line about a button begins with when it was and tells a press from a release; the
/// name follows the stamp, filled up to fourteen characters.
pub proof fn a_line_tells_press_from_release(ms: nat, name: Seq<char>, down: bool)
    ensures
        ({
            let s = event_line(ms, name, down);
            let n = stamped(ms).len() as int;
            &&& s.take(n) == stamped(ms)
            &&& s.subrange(n + 2, n + 2 + name.len() as int) == name
            &&& name.len() <= 14 ==> s.skip(n + 17) == (if down {
                "DOWN"@
            } else {
                "up"@
            })
            &&& down ==> s.last() == 'N'
            &&& !down ==> s.last() == 'p'
        }),
{
    reveal_strlit("  ");
    reveal_strlit(" ");
    reveal_strlit("DOWN");
    reveal_strlit("up");
    let s = event_line(ms, name, down);
    let n = stamped(ms).len() as int;
    assert(s.take(n) =~= stamped(ms));
    assert(s.subrange(n + 2, n + 2 + name.len() as int) =~= name);
    if name.len() <= 14 {
        assert(s.skip(n + 17) =~= (if down {
            "DOWN"@
        } else {
            "up"@
        }));
    }
}

/// A button numbered from 1 to 12 lights the lamp of its number, written with or without a
/// plus sign or leading zeros; no other number has a lamp, and nothing that is not a number
/// has.
pub proof fn lamps_are_numbered_from_one(n: nat, width: nat, rest: Seq<char>)
    ensures
        1 <= n <= 12 ==> lamp("Button "@ + zeroed(n, width)) == Some((n - 1) as usize),
        1 <= n <= 12 ==> lamp("Button +"@ + zeroed(n, width)) == Some((n - 1) as usize),
        n == 0 || n > 12 ==> lamp("Button "@ + zeroed(n, width)) is None,
        lamp("Button "@) is None,
        rest.len() > 0 && !is_digit(rest.last()) ==> lamp("Button "@ + rest) is None,
        rest.len() > 0 && rest[0] != 'B' ==> lamp(rest) is None,
{
    reveal_strlit("Button ");
    reveal_strlit("Button +");
    a_zeroed_number_reads_back(n, width);
    let z = zeroed(n, width);
    a_number_reads_back(n);
    assert(z.len() > 0 && z[0] != '+') by {
        if dec(n).len() < width {
            assert(z[0] == '0');
        } else {
            assert(z == dec(n));
            assert(is_digit(dec(n)[0]));
        }
    }
    let plain = "Button "@ + z;
    assert("Button "@ =~= plain.subrange(0, 7));
    assert(plain.skip(7) =~= z);
    let plus = "Button +"@ + z;
    assert("Button "@ =~= plus.subrange(0, 7));
    assert(plus.skip(7)[0] == '+');
    assert(plus.skip(7).skip(1) =~= z);
    assert("Button "@.skip(7) =~= Seq::<char>::empty());
    let odd = "Button "@ + rest;
    assert(odd.skip(7) =~= rest);
    if rest.len() > 1 {
        assert(rest.skip(1).last() == rest.last());
    }
    if rest.len() > 0 && rest[0] != 'B' && "Button "@.is_prefix_of(rest) {
        assert("Button "@[0] == rest.subrange(0, 7)[0]);
    }
}

/// What measurements come to: the greatest is one of them and none is greater; the middle
/// one stands in the middle once they are put in order, with none above it before and none
/// below it behind; and all of them are counted.
pub proof fn the_figures_are_the_middle_and_the_greatest(
    latency: Seq<Single>,
    f: Latency,
    i: int,
)
    requires
        crate::diagnostics::numbers(latency),
        figured(latency, Some(f)),
        0 <= i < latency.len(),
    ensures
        f.n == latency.len(),
        latency.contains(f.max),
        latency.contains(f.p50),
        latency[i].at_most(f.max),
        ({
            let s = ordered(latency);
            &&& s.to_multiset() == latency.to_multiset()
            &&& s[latency.len() as int / 2] == f.p50
            &&& i <= latency.len() as int / 2 ==> s[i].at_most(f.p50)
            &&& latency.len() as int / 2 <= i ==> f.p50.at_most(s[i])
        }),
{
    broadcast use vstd::seq_lib::group_to_multiset_ensures;
    ordering_keeps_every_number(latency);
    let s = ordered(latency);
    assert(s.contains(s[latency.len() as int / 2]));
    assert(s.contains(s[s.len() - 1]));
    assert(latency.to_multiset().count(f.max) > 0);
    assert(latency.to_multiset().count(f.p50) > 0);
    assert(latency.contains(latency[i]));
    assert(s.to_multiset().count(latency[i]) > 0);
    assert(s.contains(latency[i]));
    let k = choose|k: int| 0 <= k < s.len() && s[k] == latency[i];
    assert(s[k].at_most(s[s.len() - 1]));
}

/// The settings of a pad that was never set up: relative faders that keep 0.7 of their level
/// in a step, with a dead zone of 0.04, a straight curve, a travel of 100.0 and a threshold
/// of 2.5; keys over 0.66 of the whole playfield; screens chosen by themselves; the usual
/// port; and everything else off.
pub proof fn a_pad_starts_with_these_settings(c: Config)
    requires
        c == default_settings(),
    ensures
        c.relative_faders && !c.diagnostics && !c.light_keys && !c.flip_vertical && !c.windowed,
        c.fader_decay.bits == 0x3f33_3333 && c.fader_dead.bits == 0x3d23_d70a,
        c.fader_curve.bits == 0x3f80_0000 && c.fader_rel_travel.bits == 0x42c8_0000,
        c.fader_speed_dead.bits == 0x4020_0000 && c.playfield_fit.bits == 0x3f80_0000,
        c.key_height.bits == 0x3f28_f5c3 && c.fader_pos.bits == 0,
        c.pad_monitor == -1 && c.nav_monitor == -1,
        c.api_port == crate::spiceapi::DEFAULT_PORT,
{
}

/// What a file holds is used as it is; where it holds nothing that can be used, a pad starts
/// as one that was never set up.
pub proof fn a_file_is_used_whole(found: Found)
    ensures
        found matches Found::Parsed(c) ==> starting(found) == c && held_by_file(found) == Some(c),
        !(found is Parsed) ==> starting(found) == default_settings() && held_by_file(found) is None,
{
}

/// Settings agree exactly where no single one differs.
pub proof fn settings_agree_in_every_one(a: Config, b: Config)
    ensures
        !a.agrees(b) <==> {
            ||| a.relative_faders != b.relative_faders
            ||| !a.fader_decay.equals(b.fader_decay)
            ||| !a.fader_dead.equals(b.fader_dead)
            ||| !a.fader_curve.equals(b.fader_curve)
            ||| !a.fader_rel_travel.equals(b.fader_rel_travel)
            ||| !a.fader_speed_dead.equals(b.fader_speed_dead)
            ||| !a.playfield_fit.equals(b.playfield_fit)
            ||| !a.key_height.equals(b.key_height)
            ||| !a.fader_pos.equals(b.fader_pos)
            ||| a.diagnostics != b.diagnostics
            ||| a.api_port != b.api_port
            ||| a.light_keys != b.light_keys
            ||| a.flip_vertical != b.flip_vertical
            ||| a.windowed != b.windowed
            ||| a.pad_monitor != b.pad_monitor
            ||| a.nav_monitor != b.nav_monitor
        },
{
}

/// A port that there is stays as it is; any other becomes the nearest that there is.
pub proof fn a_port_is_brought_to_the_nearest(asked: i32)
    ensures
        1 <= asked <= 65535 ==> port_within(asked) == asked,
        asked < 1 ==> port_within(asked) == 1,
        asked > 65535 ==> port_within(asked) == 65535,
{
}

/// Putting settings away goes one way: what succeeds leads on to the next step and in the
/// end to the settings being in place, what fails leads to failure, and whatever can fail
/// says why.
pub proof fn saving_goes_one_way(s: Saving, parent: bool, places: Places, error: Seq<char>)
    ensures
        Saving::Begun.after(parent, true) == Saving::Rendering,
        Saving::Rendering.after(true, true) == Saving::MakingDir,
        Saving::Rendering.after(false, true) == Saving::Writing,
        Saving::MakingDir.after(parent, true) == Saving::Writing,
        Saving::Writing.after(parent, true) == Saving::Replacing,
        Saving::Replacing.after(parent, true) == Saving::Saved,
        s.complaint(places, error) is Some <==> s == Saving::Rendering || s == Saving::MakingDir
            || s == Saving::Writing || s == Saving::Replacing,
        s.complaint(places, error) is Some && s != Saving::Replacing ==> s.after(parent, false)
            == Saving::Failed,
        s.complaint(places, error) matches Some(why) ==> why.len() >= error.len() && why.skip(
            why.len() - error.len(),
        ) == error,
        s == Saving::Saved || s == Saving::Failed ==> s.after(parent, true) == s && s.after(
            parent,
            false,
        ) == s,
{
    if let Some(why) = s.complaint(places, error) {
        assert(why.skip(why.len() - error.len()) =~= error);
    }
}

/// What comes before a zero is the longest run from the front without one.
pub proof fn a_buffer_ends_at_its_first_zero(s: Seq<u16>, i: int)
    ensures
        ({
            let t = before_nul(s);
            &&& t.len() <= s.len()
            &&& 0 <= i < t.len() ==> t[i] == s[i] && t[i] != 0
            &&& t.len() < s.len() ==> s[t.len() as int] == 0
        }),
    decreases s.len(),
{
    if s.len() > 0 && s[0] != 0 {
        a_buffer_ends_at_its_first_zero(s.skip(1), i - 1);
        let t = before_nul(s.skip(1));
        assert(before_nul(s) =~= seq![s[0]] + t);
        if 0 < i < before_nul(s).len() {
            assert(before_nul(s)[i] == t[i - 1]);
        }
    }
}

/// A pair of surrogates is one character beyond the first plane, and a surrogate without its
/// partner is the replacement character.
pub proof fn surrogates_come_in_pairs(hi: u16, lo: u16, rest: Seq<u16>)
    requires
        0xd800 <= hi < 0xdc00,
        0xdc00 <= lo < 0xe000,
    ensures
        utf16_text(seq![hi, lo] + rest).len() == 1 + utf16_text(rest).len(),
        utf16_text(seq![hi, lo] + rest)[0] as int == 0x10000 + 0x400 * (hi - 0xd800) + (lo
            - 0xdc00),
        utf16_text(seq![lo] + rest).len() == 1 + utf16_text(rest).len(),
        utf16_text(seq![lo] + rest)[0] as int == 0xfffd,
        rest.len() == 0 || !(0xdc00 <= rest[0] < 0xe000) ==> utf16_text(seq![hi] + rest)[0] as int
            == 0xfffd,
{
    assert((seq![hi, lo] + rest).skip(2) =~= rest);
    assert((seq![lo] + rest).skip(1) =~= rest);
    assert((seq![hi] + rest).skip(1) =~= rest);
}

/// A reply loses the NUL that ends it and nothing else.
pub proof fn a_reply_loses_its_nul(reply: Seq<u8>)
    ensures
        unframed(reply.push(0)) == reply,
        reply.len() > 0 && reply.last() != 0 ==> unframed(reply) == reply,
        reply.len() == 0 ==> unframed(reply) == reply,
        framed(reply) ==> unframed(reply).push(0) == reply,
        framed(reply) ==> !unframed(reply).contains(0),
{
    assert(reply.push(0).drop_last() =~= reply);
    if framed(reply) {
        assert(unframed(reply).push(0) =~= reply);
    }
}

/// Complaints are news exactly where there are some and their line was not logged; no list,
/// and an empty one, are never news. Calls are told apart by their names.
pub proof fn new_complaints_are_news(
    seen: SeenErrors,
    module: Seq<char>,
    function: Seq<char>,
    c: Seq<Seq<char>>,
)
    ensures
        seen.news(module, function, None) is None,
        c.len() == 0 ==> seen.news(module, function, Some(c)) is None,
        seen.news(module, function, Some(c)) matches Some(line) ==> !seen.lines().contains(line)
            && (module + "."@ + function + ": ["@).is_prefix_of(line) && line.last() == ']',
        c.len() > 0 && seen.lines().len() == 0 ==> seen.news(module, function, Some(c)) is Some,
{
    reveal_strlit("]");
    if let Some(line) = seen.news(module, function, Some(c)) {
        let head = module + "."@ + function + ": ["@;
        assert(head =~= line.subrange(0, head.len() as int));
    }
}

/// Whether text holds a part at a place.
pub open spec fn holds_at(text: Seq<char>, part: Seq<char>, at: int) -> bool {
    0 <= at && at + part.len() <= text.len() && text.subrange(at, at + part.len()) == part
}

/// Whether text says that the figure behind a key is this one: the key, the figure, and then
/// something that is no digit.
#[verifier::opaque]
pub open spec fn says(text: Seq<char>, key: Seq<char>, figure: Seq<char>) -> bool {
    exists|at: int| #[trigger]
        holds_at(text, key, at) && holds_at(text, figure, at + key.len()) && at + key.len()
            + figure.len() < text.len() && !is_digit(text[at + key.len() + figure.len()])
}

proof fn lemma_goes_on(t: Seq<char>, x: Seq<char>)
    ensures
        forall|key: Seq<char>, figure: Seq<char>|
            says(t, key, figure) ==> #[trigger] says(t + x, key, figure),
{
    reveal(says);
    assert forall|key: Seq<char>, figure: Seq<char>| says(t, key, figure) implies #[trigger] says(
        t + x,
        key,
        figure,
    ) by {
        let at = choose|at: int| #[trigger]
            holds_at(t, key, at) && holds_at(t, figure, at + key.len()) && at + key.len()
                + figure.len() < t.len() && !is_digit(t[at + key.len() + figure.len()]);
        let all = t + x;
        let next = at + key.len();
        assert(all.subrange(at, next) =~= t.subrange(at, next));
        assert(all.subrange(next, next + figure.len()) =~= t.subrange(next, next + figure.len()));
        assert(holds_at(all, key, at));
    }
}

proof fn lemma_field(a: Seq<char>, key: Seq<char>, figure: Seq<char>, next: Seq<char>)
    requires
        next.len() > 0,
        !is_digit(next[0]),
    ensures
        says(a + key + figure + next, key, figure),
        forall|k: Seq<char>, f: Seq<char>|
            says(a, k, f) ==> #[trigger] says(a + key + figure + next, k, f),
        forall|k: Seq<char>, f: Seq<char>|
            says(a + key, k, f) ==> #[trigger] says(a + key + figure + next, k, f),
{
    let text = a + key + figure + next;
    let at = a.len() as int;
    assert(text.subrange(at, at + key.len()) =~= key);
    assert(text.subrange(at + key.len(), at + key.len() + figure.len()) =~= figure);
    assert(says(text, key, figure)) by {
        reveal(says);
        assert(holds_at(text, key, at));
    }
    lemma_goes_on(a, key);
    lemma_goes_on(a + key, figure);
    lemma_goes_on(a + key + figure, next);
    assert forall|k: Seq<char>, f: Seq<char>| says(a, k, f) implies #[trigger] says(text, k, f) by {
        assert(says(a + key, k, f));
        assert(says(a + key + figure, k, f));
    }
    assert forall|k: Seq<char>, f: Seq<char>| says(a + key, k, f) implies #[trigger] says(
        text,
        k,
        f,
    ) by {
        assert(says(a + key + figure, k, f));
    }
}

/// A stall report says each figure behind its name, and ends with what there is to say of
/// the link.
pub proof fn a_stall_report_says_every_figure(
    touch: Stats,
    vetoed: u64,
    expired: u64,
    link: Seq<char>,
)
    ensures
        ({
            let s = stall_report(touch, vetoed, expired, link);
            &&& says(s, "touch live="@, dec(touch.live as nat))
            &&& says(s, " peak="@, dec(touch.peak as nat))
            &&& says(s, " dropped="@, dec(touch.dropped as nat))
            &&& says(s, " vetoed_moves="@, dec(vetoed as nat))
            &&& says(s, " expired="@, dec(expired as nat))
            &&& s.len() >= link.len() && s.skip(s.len() - link.len()) == link
        }),
{
    reveal_strlit(" peak=");
    reveal_strlit(" dropped=");
    reveal_strlit(" vetoed_moves=");
    reveal_strlit(" expired=");
    reveal_strlit("\n");
    let none = Seq::<char>::empty();
    assert(none + "touch live="@ =~= "touch live="@);
    let f0 = dec(touch.live as nat);
    let f1 = dec(touch.peak as nat);
    let f2 = dec(touch.dropped as nat);
    let f3 = dec(vetoed as nat);
    let f4 = dec(expired as nat);
    let t0 = "touch live="@ + f0;
    let t1 = t0 + " peak="@ + f1;
    let t2 = t1 + " dropped="@ + f2;
    let t3 = t2 + " vetoed_moves="@ + f3;
    let t4 = t3 + " expired="@ + f4;
    lemma_field(none, "touch live="@, f0, " peak="@);
    assert(says(t0 + " peak="@, "touch live="@, f0));
    lemma_field(t0, " peak="@, f1, " dropped="@);
    assert(says(t1 + " dropped="@, "touch live="@, f0));
    assert(says(t1 + " dropped="@, " peak="@, f1));
    lemma_field(t1, " dropped="@, f2, " vetoed_moves="@);
    assert(says(t2 + " vetoed_moves="@, "touch live="@, f0));
    assert(says(t2 + " vetoed_moves="@, " peak="@, f1));
    assert(says(t2 + " vetoed_moves="@, " dropped="@, f2));
    lemma_field(t2, " vetoed_moves="@, f3, " expired="@);
    assert(says(t3 + " expired="@, "touch live="@, f0));
    assert(says(t3 + " expired="@, " peak="@, f1));
    assert(says(t3 + " expired="@, " dropped="@, f2));
    assert(says(t3 + " expired="@, " vetoed_moves="@, f3));
    lemma_field(t3, " expired="@, f4, "\n"@);
    assert(says(t4 + "\n"@, "touch live="@, f0));
    assert(says(t4 + "\n"@, " peak="@, f1));
    assert(says(t4 + "\n"@, " dropped="@, f2));
    assert(says(t4 + "\n"@, " vetoed_moves="@, f3));
    assert(says(t4 + "\n"@, " expired="@, f4));
    lemma_goes_on(t4 + "\n"@, link);
    let s = stall_report(touch, vetoed, expired, link);
    assert(s == t4 + "\n"@ + link);
    assert(s.skip(s.len() - link.len()) =~= link);
}

/// A truth value is told by its word, and what is in flight by its name and for how long.
pub proof fn truth_and_flight_are_told(c: Client, figures: Figures)
    ensures
        yes_no(true) == "true"@,
        yes_no(false) == "false"@,
        c.stats.in_flight_since is None ==> in_flight(c, figures) == "idle"@,
        c.stats.in_flight_since is Some ==> c.stats.in_flight_label@.is_prefix_of(
            in_flight(c, figures),
        ) && says(in_flight(c, figures), " for "@, figures.in_flight_ms@),
{
    if c.stats.in_flight_since is Some {
        reveal_strlit("ms");
        let s = in_flight(c, figures);
        let name = c.stats.in_flight_label@;
        assert(name =~= s.subrange(0, name.len() as int));
        lemma_field(name, " for "@, figures.in_flight_ms@, "ms"@);
    }
}

/// A snapshot of the link says each figure behind its name.
pub proof fn a_snapshot_says_every_figure(c: Client, figures: Figures)
    ensures
        ({
            let s = snapshot(c, figures);
            &&& says(s, "spiceapi snapshot port="@, dec(c.port as nat))
            &&& says(s, " connected="@, yes_no(c.connected))
            &&& says(s, " status="@, quoted_text(c.status@))
            &&& says(s, " q_buttons="@, dec(c.pending.buttons@.len()))
            &&& says(s, " q_analogs="@, yes_no(c.pending.analogs is Some))
            &&& says(s, " stop="@, yes_no(c.pending.stop))
            &&& says(s, " req_ok="@, dec(c.stats.req_ok as nat))
            &&& says(s, " req_fail="@, dec(c.stats.req_fail as nat))
            &&& says(s, " slow>=50ms="@, dec(c.stats.slow_req as nat))
            &&& says(s, " resyncs="@, dec(c.stats.resyncs as nat))
            &&& says(s, " last_rtt="@, figures.last_rtt@)
            &&& says(s, "ms max_rtt="@, figures.max_rtt@)
            &&& says(s, "ms last_module="@, c.stats.last_module@)
            &&& says(s, " in_flight=["@, in_flight(c, figures))
            &&& says(s, "] recent=[\n  "@, joined(contents(c.stats.recent@), "\n  "@))
        }),
{
    reveal_strlit(" connected=");
    reveal_strlit(" status=");
    reveal_strlit(" q_buttons=");
    reveal_strlit(" q_analogs=");
    reveal_strlit(" stop=");
    reveal_strlit(" req_ok=");
    reveal_strlit(" req_fail=");
    reveal_strlit(" slow>=50ms=");
    reveal_strlit(" resyncs=");
    reveal_strlit(" last_rtt=");
    reveal_strlit("ms max_rtt=");
    reveal_strlit("ms last_module=");
    reveal_strlit(" in_flight=[");
    reveal_strlit("] recent=[\n  ");
    reveal_strlit("\n]");
    let none = Seq::<char>::empty();
    assert(none + "spiceapi snapshot port="@ =~= "spiceapi snapshot port="@);
    let f0 = dec(c.port as nat);
    let f1 = yes_no(c.connected);
    let f2 = quoted_text(c.status@);
    let f3 = dec(c.pending.buttons@.len());
    let f4 = yes_no(c.pending.analogs is Some);
    let f5 = yes_no(c.pending.stop);
    let f6 = dec(c.stats.req_ok as nat);
    let f7 = dec(c.stats.req_fail as nat);
    let f8 = dec(c.stats.slow_req as nat);
    let f9 = dec(c.stats.resyncs as nat);
    let f10 = figures.last_rtt@;
    let f11 = figures.max_rtt@;
    let f12 = c.stats.last_module@;
    let f13 = in_flight(c, figures);
    let f14 = joined(contents(c.stats.recent@), "\n  "@);
    let t0 = "spiceapi snapshot port="@ + f0;
    let t1 = t0 + " connected="@ + f1;
    let t2 = t1 + " status="@ + f2;
    let t3 = t2 + " q_buttons="@ + f3;
    let t4 = t3 + " q_analogs="@ + f4;
    let t5 = t4 + " stop="@ + f5;
    let t6 = t5 + " req_ok="@ + f6;
    let t7 = t6 + " req_fail="@ + f7;
    let t8 = t7 + " slow>=50ms="@ + f8;
    let t9 = t8 + " resyncs="@ + f9;
    let t10 = t9 + " last_rtt="@ + f10;
    let t11 = t10 + "ms max_rtt="@ + f11;
    let t12 = t11 + "ms last_module="@ + f12;
    let t13 = t12 + " in_flight=["@ + f13;
    let t14 = t13 + "] recent=[\n  "@ + f14;
    lemma_field(none, "spiceapi snapshot port="@, f0, " connected="@);
    assert(says(t0 + " connected="@, "spiceapi snapshot port="@, f0));
    lemma_field(t0, " connected="@, f1, " status="@);
    assert(says(t1 + " status="@, "spiceapi snapshot port="@, f0));
    assert(says(t1 + " status="@, " connected="@, f1));
    lemma_field(t1, " status="@, f2, " q_buttons="@);
    assert(says(t2 + " q_buttons="@, "spiceapi snapshot port="@, f0));
    assert(says(t2 + " q_buttons="@, " connected="@, f1));
    assert(says(t2 + " q_buttons="@, " status="@, f2));
    lemma_field(t2, " q_buttons="@, f3, " q_analogs="@);
    assert(says(t3 + " q_analogs="@, "spiceapi snapshot port="@, f0));
    assert(says(t3 + " q_analogs="@, " connected="@, f1));
    assert(says(t3 + " q_analogs="@, " status="@, f2));
    assert(says(t3 + " q_analogs="@, " q_buttons="@, f3));
    lemma_field(t3, " q_analogs="@, f4, " stop="@);
    assert(says(t4 + " stop="@, "spiceapi snapshot port="@, f0));
    assert(says(t4 + " stop="@, " connected="@, f1));
    assert(says(t4 + " stop="@, " status="@, f2));
    assert(says(t4 + " stop="@, " q_buttons="@, f3));
    assert(says(t4 + " stop="@, " q_analogs="@, f4));
    lemma_field(t4, " stop="@, f5, " req_ok="@);
    assert(says(t5 + " req_ok="@, "spiceapi snapshot port="@, f0));
    assert(says(t5 + " req_ok="@, " connected="@, f1));
    assert(says(t5 + " req_ok="@, " status="@, f2));
    assert(says(t5 + " req_ok="@, " q_buttons="@, f3));
    assert(says(t5 + " req_ok="@, " q_analogs="@, f4));
    assert(says(t5 + " req_ok="@, " stop="@, f5));
    lemma_field(t5, " req_ok="@, f6, " req_fail="@);
    assert(says(t6 + " req_fail="@, "spiceapi snapshot port="@, f0));
    assert(says(t6 + " req_fail="@, " connected="@, f1));
    assert(says(t6 + " req_fail="@, " status="@, f2));
    assert(says(t6 + " req_fail="@, " q_buttons="@, f3));
    assert(says(t6 + " req_fail="@, " q_analogs="@, f4));
    assert(says(t6 + " req_fail="@, " stop="@, f5));
    assert(says(t6 + " req_fail="@, " req_ok="@, f6));
    lemma_field(t6, " req_fail="@, f7, " slow>=50ms="@);
    assert(says(t7 + " slow>=50ms="@, "spiceapi snapshot port="@, f0));
    assert(says(t7 + " slow>=50ms="@, " connected="@, f1));
    assert(says(t7 + " slow>=50ms="@, " status="@, f2));
    assert(says(t7 + " slow>=50ms="@, " q_buttons="@, f3));
    assert(says(t7 + " slow>=50ms="@, " q_analogs="@, f4));
    assert(says(t7 + " slow>=50ms="@, " stop="@, f5));
    assert(says(t7 + " slow>=50ms="@, " req_ok="@, f6));
    assert(says(t7 + " slow>=50ms="@, " req_fail="@, f7));
    lemma_field(t7, " slow>=50ms="@, f8, " resyncs="@);
    assert(says(t8 + " resyncs="@, "spiceapi snapshot port="@, f0));
    assert(says(t8 + " resyncs="@, " connected="@, f1));
    assert(says(t8 + " resyncs="@, " status="@, f2));
    assert(says(t8 + " resyncs="@, " q_buttons="@, f3));
    assert(says(t8 + " resyncs="@, " q_analogs="@, f4));
    assert(says(t8 + " resyncs="@, " stop="@, f5));
    assert(says(t8 + " resyncs="@, " req_ok="@, f6));
    assert(says(t8 + " resyncs="@, " req_fail="@, f7));
    assert(says(t8 + " resyncs="@, " slow>=50ms="@, f8));
    lemma_field(t8, " resyncs="@, f9, " last_rtt="@);
    assert(says(t9 + " last_rtt="@, "spiceapi snapshot port="@, f0));
    assert(says(t9 + " last_rtt="@, " connected="@, f1));
    assert(says(t9 + " last_rtt="@, " status="@, f2));
    assert(says(t9 + " last_rtt="@, " q_buttons="@, f3));
    assert(says(t9 + " last_rtt="@, " q_analogs="@, f4));
    assert(says(t9 + " last_rtt="@, " stop="@, f5));
    assert(says(t9 + " last_rtt="@, " req_ok="@, f6));
    assert(says(t9 + " last_rtt="@, " req_fail="@, f7));
    assert(says(t9 + " last_rtt="@, " slow>=50ms="@, f8));
    assert(says(t9 + " last_rtt="@, " resyncs="@, f9));
    lemma_field(t9, " last_rtt="@, f10, "ms max_rtt="@);
    assert(says(t10 + "ms max_rtt="@, "spiceapi snapshot port="@, f0));
    assert(says(t10 + "ms max_rtt="@, " connected="@, f1));
    assert(says(t10 + "ms max_rtt="@, " status="@, f2));
    assert(says(t10 + "ms max_rtt="@, " q_buttons="@, f3));
    assert(says(t10 + "ms max_rtt="@, " q_analogs="@, f4));
    assert(says(t10 + "ms max_rtt="@, " stop="@, f5));
    assert(says(t10 + "ms max_rtt="@, " req_ok="@, f6));
    assert(says(t10 + "ms max_rtt="@, " req_fail="@, f7));
    assert(says(t10 + "ms max_rtt="@, " slow>=50ms="@, f8));
    assert(says(t10 + "ms max_rtt="@, " resyncs="@, f9));
    assert(says(t10 + "ms max_rtt="@, " last_rtt="@, f10));
    lemma_field(t10, "ms max_rtt="@, f11, "ms last_module="@);
    assert(says(t11 + "ms last_module="@, "spiceapi snapshot port="@, f0));
    assert(says(t11 + "ms last_module="@, " connected="@, f1));
    assert(says(t11 + "ms last_module="@, " status="@, f2));
    assert(says(t11 + "ms last_module="@, " q_buttons="@, f3));
    assert(says(t11 + "ms last_module="@, " q_analogs="@, f4));
    assert(says(t11 + "ms last_module="@, " stop="@, f5));
    assert(says(t11 + "ms last_module="@, " req_ok="@, f6));
    assert(says(t11 + "ms last_module="@, " req_fail="@, f7));
    assert(says(t11 + "ms last_module="@, " slow>=50ms="@, f8));
    assert(says(t11 + "ms last_module="@, " resyncs="@, f9));
    assert(says(t11 + "ms last_module="@, " last_rtt="@, f10));
    assert(says(t11 + "ms last_module="@, "ms max_rtt="@, f11));
    lemma_field(t11, "ms last_module="@, f12, " in_flight=["@);
    assert(says(t12 + " in_flight=["@, "spiceapi snapshot port="@, f0));
    assert(says(t12 + " in_flight=["@, " connected="@, f1));
    assert(says(t12 + " in_flight=["@, " status="@, f2));
    assert(says(t12 + " in_flight=["@, " q_buttons="@, f3));
    assert(says(t12 + " in_flight=["@, " q_analogs="@, f4));
    assert(says(t12 + " in_flight=["@, " stop="@, f5));
    assert(says(t12 + " in_flight=["@, " req_ok="@, f6));
    assert(says(t12 + " in_flight=["@, " req_fail="@, f7));
    assert(says(t12 + " in_flight=["@, " slow>=50ms="@, f8));
    assert(says(t12 + " in_flight=["@, " resyncs="@, f9));
    assert(says(t12 + " in_flight=["@, " last_rtt="@, f10));
    assert(says(t12 + " in_flight=["@, "ms max_rtt="@, f11));
    assert(says(t12 + " in_flight=["@, "ms last_module="@, f12));
    lemma_field(t12, " in_flight=["@, f13, "] recent=[\n  "@);
    assert(says(t13 + "] recent=[\n  "@, "spiceapi snapshot port="@, f0));
    assert(says(t13 + "] recent=[\n  "@, " connected="@, f1));
    assert(says(t13 + "] recent=[\n  "@, " status="@, f2));
    assert(says(t13 + "] recent=[\n  "@, " q_buttons="@, f3));
    assert(says(t13 + "] recent=[\n  "@, " q_analogs="@, f4));
    assert(says(t13 + "] recent=[\n  "@, " stop="@, f5));
    assert(says(t13 + "] recent=[\n  "@, " req_ok="@, f6));
    assert(says(t13 + "] recent=[\n  "@, " req_fail="@, f7));
    assert(says(t13 + "] recent=[\n  "@, " slow>=50ms="@, f8));
    assert(says(t13 + "] recent=[\n  "@, " resyncs="@, f9));
    assert(says(t13 + "] recent=[\n  "@, " last_rtt="@, f10));
    assert(says(t13 + "] recent=[\n  "@, "ms max_rtt="@, f11));
    assert(says(t13 + "] recent=[\n  "@, "ms last_module="@, f12));
    assert(says(t13 + "] recent=[\n  "@, " in_flight=["@, f13));
    lemma_field(t13, "] recent=[\n  "@, f14, "\n]"@);
    assert(says(t14 + "\n]"@, "spiceapi snapshot port="@, f0));
    assert(says(t14 + "\n]"@, " connected="@, f1));
    assert(says(t14 + "\n]"@, " status="@, f2));
    assert(says(t14 + "\n]"@, " q_buttons="@, f3));
    assert(says(t14 + "\n]"@, " q_analogs="@, f4));
    assert(says(t14 + "\n]"@, " stop="@, f5));
    assert(says(t14 + "\n]"@, " req_ok="@, f6));
    assert(says(t14 + "\n]"@, " req_fail="@, f7));
    assert(says(t14 + "\n]"@, " slow>=50ms="@, f8));
    assert(says(t14 + "\n]"@, " resyncs="@, f9));
    assert(says(t14 + "\n]"@, " last_rtt="@, f10));
    assert(says(t14 + "\n]"@, "ms max_rtt="@, f11));
    assert(says(t14 + "\n]"@, "ms last_module="@, f12));
    assert(says(t14 + "\n]"@, " in_flight=["@, f13));
    assert(says(t14 + "\n]"@, "] recent=[\n  "@, f14));
    assert(snapshot(c, figures) == t14 + "\n]"@);
}

/// A character that a JSON string can hold stands for itself there, every other one begins
/// with a backslash, and no two characters are written alike. Truth values are their words.
pub proof fn json_tells_characters_apart(a: char, b: char)
    ensures
        a as int >= 32 && a != '"' && a != '\\' ==> json_char(a) == seq![a],
        (a as int) < 32 || a == '"' || a == '\\' ==> json_char(a).len() >= 2 && json_char(a)[0]
            == '\\',
        json_char(a) == json_char(b) ==> a == b,
        json_bool(true) == "true"@,
        json_bool(false) == "false"@,
{
    let (x, y) = (json_char(a), json_char(b));
    if x == y {
        assert(x.len() == y.len() && x[0] == y[0]);
        if x.len() == 2 {
            assert(x[1] == y[1]);
        } else if x.len() == 6 {
            assert(x[4] == y[4] && x[5] == y[5]);
        }
    }
}

/// Whatever holds no NUL is framed by one at its end.
pub proof fn one_nul_frames_a_message(text: Seq<u8>)
    ensures
        framed(text.push(0)) <==> !text.contains(0),
        !framed(Seq::empty()),
{
    let m = text.push(0);
    if framed(m) && text.contains(0) {
        let i = choose|i: int| 0 <= i < text.len() && text[i] == 0;
        assert(m[i] == 0);
    }
    if !text.contains(0) {
        assert forall|i: int| 0 <= i < m.len() - 1 implies m[i] != 0 by {
            assert(text.contains(text[i]));
        }
    }
}

/// Measurements come to something exactly where there are any.
pub proof fn figures_need_measurements(latency: Seq<Single>, r: Option<Latency>)
    requires
        figured(latency, r),
    ensures
        r is None <==> latency.len() == 0,
{
}

} // verus!
