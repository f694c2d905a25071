//! Per-keystroke decision logic of the key filter engine.
//!
//! For every system-wide keystroke the engine decides among passing the
//! event through, consuming it, and consuming it while injecting a
//! full-width corner bracket. The decision depends on the event itself,
//! the live modifier state, and the foreground window's input-method
//! context.

use vstd::prelude::*;
use vstd::string::*;

verus! {

/// Message code of a normal key-down transition.
pub const MSG_KEY_DOWN: u32 = 0x0100;
/// Message code of a normal key-up transition.
pub const MSG_KEY_UP: u32 = 0x0101;
/// Message code of a system key-down transition (Alt held).
pub const MSG_SYS_KEY_DOWN: u32 = 0x0104;
/// Message code of a system key-up transition (Alt held).
pub const MSG_SYS_KEY_UP: u32 = 0x0105;

/// Virtual key code of the left bracket key.
pub const VK_LEFT_BRACKET: u32 = 0xDB;
/// Virtual key code of the right bracket key.
pub const VK_RIGHT_BRACKET: u32 = 0xDD;

/// Bit set in a low-level keyboard event's flags when the event was
/// synthesized rather than produced by the physical keyboard.
pub const FLAG_INJECTED: u32 = 0x10;

/// Primary language identifier of Chinese keyboard layouts.
pub const LANG_CHINESE: u32 = 0x04;
/// Mask selecting the primary language from a 16-bit language identifier.
pub const PRIMARY_LANG_MASK: u32 = 0x3FF;
/// Bit of the IME conversion-mode mask that marks native conversion mode.
pub const IME_MODE_NATIVE: u32 = 0x01;

/// One keystroke as delivered by the low-level keyboard interception:
/// virtual key code, transition message code, and whether the event was
/// itself synthetically injected.
pub struct KeyEvent {
    pub vk: u32,
    pub msg: u32,
    pub injected: bool,
}

/// Live modifier state, sampled at evaluation time rather than taken from
/// the event record.
pub struct ModifierState {
    pub shift: bool,
    pub control: bool,
    pub alt: bool,
}

/// What the engine could resolve about the foreground window: whether a
/// foreground window exists, the 16-bit input language identifier of its
/// owning thread, whether that window has an associated IME window, and
/// the IME window's conversion-mode mask.
pub struct ForegroundContext {
    pub has_window: bool,
    pub lang_id: u32,
    pub has_ime_window: bool,
    pub conversion_mode: u32,
}

/// The verdict for one keystroke: forward it unchanged, swallow it, or
/// swallow it and inject the given character instead.
#[derive(PartialEq, Eq, Structural, Clone, Copy, Debug)]
pub enum FilterDecision {
    PassThrough,
    Consume,
    ConsumeAndInject(char),
}

/// The two bracket keys are the only trigger candidates.
pub open spec fn is_bracket_key(vk: u32) -> bool {
    vk == VK_LEFT_BRACKET || vk == VK_RIGHT_BRACKET
}

/// Key-down transitions, normal or system.
pub open spec fn is_key_down(msg: u32) -> bool {
    msg == MSG_KEY_DOWN || msg == MSG_SYS_KEY_DOWN
}

/// Key-up transitions, normal or system.
pub open spec fn is_key_up(msg: u32) -> bool {
    msg == MSG_KEY_UP || msg == MSG_SYS_KEY_UP
}

/// Any key transition the engine reacts to.
pub open spec fn is_key_transition(msg: u32) -> bool {
    is_key_down(msg) || is_key_up(msg)
}

/// An event is eligible for substitution when it is a bracket-key
/// transition with Shift held, Control and Alt not held, and was not
/// itself injected.
pub open spec fn spec_eligible(e: KeyEvent, m: ModifierState) -> bool {
    &&& is_bracket_key(e.vk)
    &&& is_key_transition(e.msg)
    &&& m.shift
    &&& !m.control
    &&& !m.alt
    &&& !e.injected
}

/// The primary language bits of a 16-bit input language identifier.
pub open spec fn spec_primary_language(lang_id: u32) -> u32 {
    lang_id & PRIMARY_LANG_MASK
}

/// The foreground context reports native-Chinese conversion mode exactly
/// when every resolution step succeeded, the thread's primary input
/// language is Chinese, and the IME conversion mode has the native bit.
pub open spec fn spec_native_chinese(ctx: ForegroundContext) -> bool {
    &&& ctx.has_window
    &&& spec_primary_language(ctx.lang_id) == LANG_CHINESE
    &&& ctx.has_ime_window
    &&& ctx.conversion_mode & IME_MODE_NATIVE != 0
}

/// The corner bracket that replaces a bracket key.
pub open spec fn spec_bracket_char(vk: u32) -> char {
    if vk == VK_LEFT_BRACKET {
        '\u{300C}'
    } else {
        '\u{300D}'
    }
}

/// The full decision rule: an eligible event in native-Chinese context is
/// consumed, with the mapped corner bracket injected on key-down; every
/// other event passes through.
pub open spec fn spec_decision(e: KeyEvent, m: ModifierState, ctx: ForegroundContext) -> FilterDecision {
    if spec_eligible(e, m) && spec_native_chinese(ctx) {
        if is_key_down(e.msg) {
            FilterDecision::ConsumeAndInject(spec_bracket_char(e.vk))
        } else {
            FilterDecision::Consume
        }
    } else {
        FilterDecision::PassThrough
    }
}

/// Convert one raw low-level keyboard event into the engine's event
/// record; the injected flag is the designated bit of the raw event
/// flags.
pub fn event_from_raw(vk: u32, msg: u32, flags: u32) -> (e: KeyEvent)
    ensures
        e.vk == vk,
        e.msg == msg,
        e.injected == ((flags & FLAG_INJECTED) != 0),
{
    KeyEvent { vk, msg, injected: (flags & FLAG_INJECTED) != 0 }
}

/// Modifier state from the live asynchronous key states, sampled at
/// evaluation time: a key counts as held exactly when its state value is
/// negative (the high bit set).
pub fn modifiers_from_key_states(shift: i16, control: i16, alt: i16) -> (m: ModifierState)
    ensures
        m.shift == (shift < 0),
        m.control == (control < 0),
        m.alt == (alt < 0),
{
    ModifierState { shift: shift < 0, control: control < 0, alt: alt < 0 }
}

/// Fast eligibility test, evaluated before any foreground query so that
/// the common non-matching keystroke never pays for context resolution.
pub fn is_eligible(e: &KeyEvent, m: &ModifierState) -> (r: bool)
    ensures
        r == spec_eligible(*e, *m),
{
    (e.vk == VK_LEFT_BRACKET || e.vk == VK_RIGHT_BRACKET)
        && (e.msg == MSG_KEY_DOWN || e.msg == MSG_SYS_KEY_DOWN || e.msg == MSG_KEY_UP
            || e.msg == MSG_SYS_KEY_UP) && m.shift && !m.control && !m.alt && !e.injected
}

/// Whether the resolved context reports native-Chinese conversion mode.
pub fn is_native_chinese(ctx: &ForegroundContext) -> (r: bool)
    ensures
        r == spec_native_chinese(*ctx),
{
    ctx.has_window && (ctx.lang_id & PRIMARY_LANG_MASK) == LANG_CHINESE && ctx.has_ime_window
        && (ctx.conversion_mode & IME_MODE_NATIVE) != 0
}

/// Decide one keystroke against the live modifier state and the resolved
/// foreground context.
pub fn decide(e: &KeyEvent, m: &ModifierState, ctx: &ForegroundContext) -> (d: FilterDecision)
    ensures
        d == spec_decision(*e, *m, *ctx),
{
    if is_eligible(e, m) && is_native_chinese(ctx) {
        if e.msg == MSG_KEY_DOWN || e.msg == MSG_SYS_KEY_DOWN {
            if e.vk == VK_LEFT_BRACKET {
                FilterDecision::ConsumeAndInject('\u{300C}')
            } else {
                FilterDecision::ConsumeAndInject('\u{300D}')
            }
        } else {
            FilterDecision::Consume
        }
    } else {
        FilterDecision::PassThrough
    }
}

/// How a decided character is delivered to the target application: as a
/// character message posted straight to the target window, or as a
/// synthetic Unicode key-down/key-up pair on the system input queue.
#[derive(PartialEq, Eq, Structural, Clone, Copy, Debug)]
pub enum InjectionMethod {
    PostCharMessage,
    SendUnicodePair,
}

/// One synthetic Unicode keyboard input: the UTF-16 code unit it carries
/// and whether it is the key-up half of the pair.
pub struct UnicodeKeyInput {
    pub scan: u16,
    pub key_up: bool,
}

/// The delivery plan for one injected character.
pub enum InjectionPlan {
    PostChar { code_point: u32 },
    UnicodePair { down: UnicodeKeyInput, up: UnicodeKeyInput },
}

/// Window classes of the GUI toolkit that silently discards queue-level
/// synthetic Unicode input start with this two-character prefix; such
/// windows get the character as a posted message instead.
pub open spec fn spec_needs_posted_char(class_name: Seq<char>) -> bool {
    class_name.len() >= 2 && class_name[0] == 'Q' && class_name[1] == 't'
}

/// The injection method selected for a target window class name.
pub open spec fn spec_injection_method(class_name: Seq<char>) -> InjectionMethod {
    if spec_needs_posted_char(class_name) {
        InjectionMethod::PostCharMessage
    } else {
        InjectionMethod::SendUnicodePair
    }
}

/// Select the injection method from the target window's class name.
pub fn injection_method(class_name: &str) -> (m: InjectionMethod)
    ensures
        m == spec_injection_method(class_name@),
{
    let len: usize = class_name.unicode_len();
    if len >= 2 && class_name.get_char(0) == 'Q' && class_name.get_char(1) == 't' {
        InjectionMethod::PostCharMessage
    } else {
        InjectionMethod::SendUnicodePair
    }
}

/// Build the delivery plan for one character aimed at a window of the
/// given class: a posted character message for the discarding toolkit, a
/// synthetic Unicode key-down/key-up pair for everything else. The code
/// point must fit one UTF-16 unit, which holds for both corner brackets.
pub fn plan_injection(ch: char, class_name: &str) -> (p: InjectionPlan)
    requires
        ch as u32 <= 0xFFFF,
    ensures
        spec_needs_posted_char(class_name@) ==> (p matches InjectionPlan::PostChar { code_point }
            && code_point == ch as u32),
        !spec_needs_posted_char(class_name@) ==> (p matches InjectionPlan::UnicodePair { down, up }
            && down.scan == ch as u32 && !down.key_up && up.scan == ch as u32 && up.key_up),
{
    let code: u32 = ch as u32;
    match injection_method(class_name) {
        InjectionMethod::PostCharMessage => InjectionPlan::PostChar { code_point: code },
        InjectionMethod::SendUnicodePair => {
            let scan: u16 = code as u16;
            InjectionPlan::UnicodePair {
                down: UnicodeKeyInput { scan, key_up: false },
                up: UnicodeKeyInput { scan, key_up: true },
            }
        },
    }
}

/// Both substitution characters fit one UTF-16 code unit, so every
/// decided injection has a delivery plan.
pub proof fn lemma_bracket_char_fits_utf16(vk: u32)
    ensures
        spec_bracket_char(vk) as u32 <= 0xFFFF,
{
}

/// A key event whose virtual key is not one of the two bracket keys is
/// passed through, whatever the modifier and foreground state.
pub proof fn lemma_non_bracket_passes_through(e: KeyEvent, m: ModifierState, ctx: ForegroundContext)
    requires
        !is_bracket_key(e.vk),
    ensures
        spec_decision(e, m, ctx) is PassThrough,
{
}

/// An event that was itself injected never triggers consumption,
/// whatever the other conditions.
pub proof fn lemma_injected_passes_through(e: KeyEvent, m: ModifierState, ctx: ForegroundContext)
    requires
        e.injected,
    ensures
        spec_decision(e, m, ctx) is PassThrough,
{
}

/// For a bracket-key transition with Shift held, Control and Alt not
/// held, and the injected flag clear: the event is consumed exactly when
/// the foreground context reports native-Chinese mode, with the mapped
/// corner bracket injected on key-down; otherwise it passes through.
pub proof fn lemma_matched_bracket_decision(e: KeyEvent, m: ModifierState, ctx: ForegroundContext)
    requires
        is_bracket_key(e.vk),
        is_key_transition(e.msg),
        m.shift,
        !m.control,
        !m.alt,
        !e.injected,
    ensures
        spec_native_chinese(ctx) && is_key_down(e.msg) ==> spec_decision(e, m, ctx)
            == FilterDecision::ConsumeAndInject(spec_bracket_char(e.vk)),
        spec_native_chinese(ctx) && is_key_down(e.msg) && e.vk == VK_LEFT_BRACKET
            ==> spec_decision(e, m, ctx) == FilterDecision::ConsumeAndInject('\u{300C}'),
        spec_native_chinese(ctx) && is_key_down(e.msg) && e.vk == VK_RIGHT_BRACKET
            ==> spec_decision(e, m, ctx) == FilterDecision::ConsumeAndInject('\u{300D}'),
        spec_native_chinese(ctx) && !is_key_down(e.msg) ==> spec_decision(e, m, ctx)
            is Consume,
        !spec_native_chinese(ctx) ==> spec_decision(e, m, ctx) is PassThrough,
{
}

} // verus!
