use ccc_lib::level::DebugLevel;

#[test]
fn test_debug_level() {
    assert_eq!(DebugLevel::Info.to_string(), "INFO");
    assert_eq!(DebugLevel::Warn.to_string(), "WARN");
    assert_eq!(DebugLevel::Error.to_string(), "ERRO");
}

#[test]
fn debug_level_default() {
    let d = DebugLevel::default();
    assert_eq!(DebugLevel::Warn, d);
}

#[test]
fn debug_level_display() {
    assert_eq!(DebugLevel::Info.to_string(), "INFO");
    assert_eq!(DebugLevel::Warn.to_string(), "WARN");
    assert_eq!(DebugLevel::Error.to_string(), "ERRO");
    assert_eq!(DebugLevel::Answer.to_string(), "ANSW");
}

#[test]
fn debug_level_cmp() {
    let lvl = DebugLevel::Warn;
    assert_eq!(true, lvl.can_trigger(&DebugLevel::Error));
    assert_eq!(false, lvl.can_trigger(&DebugLevel::Info));
}

#[test]
fn every_level_passes_its_own_threshold() {
    let all = [
        DebugLevel::Info,
        DebugLevel::Warn,
        DebugLevel::Error,
        DebugLevel::Answer,
    ];
    for (i, threshold) in all.iter().enumerate() {
        for (j, level) in all.iter().enumerate() {
            assert_eq!(threshold.can_trigger(level), i <= j);
        }
    }
}
