use chsime::filter::decide;
use chsime::filter::event_from_raw;
use chsime::filter::injection_method;
use chsime::filter::modifiers_from_key_states;
use chsime::filter::is_eligible;
use chsime::filter::is_native_chinese;
use chsime::filter::plan_injection;
use chsime::filter::FilterDecision;
use chsime::filter::ForegroundContext;
use chsime::filter::InjectionMethod;
use chsime::filter::InjectionPlan;
use chsime::filter::KeyEvent;
use chsime::filter::ModifierState;
use chsime::filter::MSG_KEY_DOWN;
use chsime::filter::MSG_KEY_UP;
use chsime::filter::MSG_SYS_KEY_DOWN;
use chsime::filter::MSG_SYS_KEY_UP;
use chsime::filter::VK_LEFT_BRACKET;
use chsime::filter::VK_RIGHT_BRACKET;

fn plain_mods() -> ModifierState {
    ModifierState { shift: true, control: false, alt: false }
}

fn native_ctx() -> ForegroundContext {
    ForegroundContext { has_window: true, lang_id: 0x0804, has_ime_window: true, conversion_mode: 1 }
}

#[test]
fn non_bracket_key_passes_through() {
    // A plain letter key passes through even with Shift held and a
    // native-Chinese foreground context.
    let e = KeyEvent { vk: 0x41, msg: MSG_KEY_DOWN, injected: false };
    assert_eq!(decide(&e, &plain_mods(), &native_ctx()), FilterDecision::PassThrough);
}

#[test]
fn non_bracket_key_passes_through_all_transitions() {
    for msg in [MSG_KEY_DOWN, MSG_KEY_UP, MSG_SYS_KEY_DOWN, MSG_SYS_KEY_UP, 0x0200] {
        let e = KeyEvent { vk: 0x20, msg, injected: false };
        assert_eq!(decide(&e, &plain_mods(), &native_ctx()), FilterDecision::PassThrough);
    }
}

#[test]
fn left_bracket_down_native_injects_opening_corner() {
    let e = KeyEvent { vk: VK_LEFT_BRACKET, msg: MSG_KEY_DOWN, injected: false };
    assert_eq!(
        decide(&e, &plain_mods(), &native_ctx()),
        FilterDecision::ConsumeAndInject('\u{300C}')
    );
}

#[test]
fn right_bracket_down_native_injects_closing_corner() {
    let e = KeyEvent { vk: VK_RIGHT_BRACKET, msg: MSG_SYS_KEY_DOWN, injected: false };
    assert_eq!(
        decide(&e, &plain_mods(), &native_ctx()),
        FilterDecision::ConsumeAndInject('\u{300D}')
    );
}

#[test]
fn bracket_up_native_consumes_without_injection() {
    let left_up = KeyEvent { vk: VK_LEFT_BRACKET, msg: MSG_KEY_UP, injected: false };
    assert_eq!(decide(&left_up, &plain_mods(), &native_ctx()), FilterDecision::Consume);
    let right_up = KeyEvent { vk: VK_RIGHT_BRACKET, msg: MSG_SYS_KEY_UP, injected: false };
    assert_eq!(decide(&right_up, &plain_mods(), &native_ctx()), FilterDecision::Consume);
}

#[test]
fn bracket_without_native_context_passes_through() {
    let e = KeyEvent { vk: VK_LEFT_BRACKET, msg: MSG_KEY_DOWN, injected: false };
    // No foreground window at all.
    let no_window =
        ForegroundContext { has_window: false, lang_id: 0x0804, has_ime_window: true, conversion_mode: 1 };
    assert_eq!(decide(&e, &plain_mods(), &no_window), FilterDecision::PassThrough);
    // A non-Chinese primary input language.
    let english =
        ForegroundContext { has_window: true, lang_id: 0x0409, has_ime_window: true, conversion_mode: 1 };
    assert_eq!(decide(&e, &plain_mods(), &english), FilterDecision::PassThrough);
    // No IME window for the foreground window.
    let no_ime =
        ForegroundContext { has_window: true, lang_id: 0x0804, has_ime_window: false, conversion_mode: 1 };
    assert_eq!(decide(&e, &plain_mods(), &no_ime), FilterDecision::PassThrough);
    // IME present but not in native conversion mode.
    let latin_mode =
        ForegroundContext { has_window: true, lang_id: 0x0804, has_ime_window: true, conversion_mode: 0 };
    assert_eq!(decide(&e, &plain_mods(), &latin_mode), FilterDecision::PassThrough);
}

#[test]
fn injected_event_never_consumed() {
    for msg in [MSG_KEY_DOWN, MSG_KEY_UP] {
        for vk in [VK_LEFT_BRACKET, VK_RIGHT_BRACKET] {
            let e = KeyEvent { vk, msg, injected: true };
            assert_eq!(decide(&e, &plain_mods(), &native_ctx()), FilterDecision::PassThrough);
        }
    }
}

#[test]
fn modifier_exclusion() {
    let e = KeyEvent { vk: VK_LEFT_BRACKET, msg: MSG_KEY_DOWN, injected: false };
    let no_shift = ModifierState { shift: false, control: false, alt: false };
    assert_eq!(decide(&e, &no_shift, &native_ctx()), FilterDecision::PassThrough);
    let with_control = ModifierState { shift: true, control: true, alt: false };
    assert_eq!(decide(&e, &with_control, &native_ctx()), FilterDecision::PassThrough);
    let with_alt = ModifierState { shift: true, control: false, alt: true };
    assert_eq!(decide(&e, &with_alt, &native_ctx()), FilterDecision::PassThrough);
}

#[test]
fn eligibility_matches_decision_gate() {
    let bracket = KeyEvent { vk: VK_LEFT_BRACKET, msg: MSG_KEY_DOWN, injected: false };
    assert!(is_eligible(&bracket, &plain_mods()));
    let injected = KeyEvent { vk: VK_LEFT_BRACKET, msg: MSG_KEY_DOWN, injected: true };
    assert!(!is_eligible(&injected, &plain_mods()));
    let other_key = KeyEvent { vk: 0x5A, msg: MSG_KEY_DOWN, injected: false };
    assert!(!is_eligible(&other_key, &plain_mods()));
    let not_a_transition = KeyEvent { vk: VK_LEFT_BRACKET, msg: 0x0200, injected: false };
    assert!(!is_eligible(&not_a_transition, &plain_mods()));
}

#[test]
fn native_context_test_checks_every_step() {
    assert!(is_native_chinese(&native_ctx()));
    // Language identifiers whose low ten bits are Chinese qualify whatever
    // the sublanguage bits say.
    let traditional =
        ForegroundContext { has_window: true, lang_id: 0x0404, has_ime_window: true, conversion_mode: 3 };
    assert!(is_native_chinese(&traditional));
    let english =
        ForegroundContext { has_window: true, lang_id: 0x0409, has_ime_window: true, conversion_mode: 3 };
    assert!(!is_native_chinese(&english));
}

#[test]
fn toolkit_prefix_selects_posted_message() {
    assert_eq!(injection_method("Qt5152QWindowIcon"), InjectionMethod::PostCharMessage);
    assert_eq!(injection_method("Qt"), InjectionMethod::PostCharMessage);
}

#[test]
fn other_classes_select_unicode_pair() {
    assert_eq!(injection_method("Chrome_WidgetWin_1"), InjectionMethod::SendUnicodePair);
    assert_eq!(injection_method("Notepad"), InjectionMethod::SendUnicodePair);
    assert_eq!(injection_method(""), InjectionMethod::SendUnicodePair);
    assert_eq!(injection_method("Q"), InjectionMethod::SendUnicodePair);
    // The prefix is case-sensitive.
    assert_eq!(injection_method("qt"), InjectionMethod::SendUnicodePair);
}

#[test]
fn raw_event_conversion_reads_the_injected_bit() {
    let injected = event_from_raw(0xDB, MSG_KEY_DOWN, 0x10);
    assert!(injected.injected);
    let physical = event_from_raw(0xDB, MSG_KEY_DOWN, 0x01);
    assert!(!physical.injected);
    assert_eq!(physical.vk, 0xDB);
    assert_eq!(physical.msg, MSG_KEY_DOWN);
}

#[test]
fn modifier_state_reads_the_high_bit() {
    let m = modifiers_from_key_states(-32768, 0, 1);
    assert!(m.shift);
    assert!(!m.control);
    assert!(!m.alt);
    let n = modifiers_from_key_states(0, -1, -32768);
    assert!(!n.shift);
    assert!(n.control);
    assert!(n.alt);
}

#[test]
fn injection_plan_posts_for_toolkit_window() {
    let p = plan_injection('\u{300C}', "Qt672QWindow");
    assert!(matches!(p, InjectionPlan::PostChar { code_point: 0x300C }));
}

#[test]
fn injection_plan_sends_pair_for_other_windows() {
    let p = plan_injection('\u{300D}', "Edit");
    match p {
        InjectionPlan::UnicodePair { down, up } => {
            assert_eq!(down.scan, 0x300D);
            assert!(!down.key_up);
            assert_eq!(up.scan, 0x300D);
            assert!(up.key_up);
        }
        InjectionPlan::PostChar { .. } => panic!("expected a unicode pair"),
    }
}
