use debtmap_tui::option_ext::{AnalysisError, OptionExt, ResultExt};

#[test]
fn test_ok_or_validation_some() {
    let opt = Some(42);
    let result = opt.ok_or_validation("Expected value");
    assert_eq!(result.unwrap(), 42);
}

#[test]
fn test_ok_or_validation_none() {
    let opt: Option<i32> = None;
    let result = opt.ok_or_validation("Expected value");
    assert!(result.is_err());
    let err = result.unwrap_err();
    assert!(err.to_string().contains("Expected value"));
    assert_eq!(err.category(), "Validation");
}

#[test]
fn test_ok_or_validation_with_lazy() {
    let opt: Option<i32> = None;
    let expensive_computation_called = std::cell::Cell::new(false);
    let result = opt.ok_or_validation_with(|| {
        expensive_computation_called.set(true);
        "Computed error message".to_string()
    });
    assert!(result.is_err());
    assert!(expensive_computation_called.get());
}

#[test]
fn test_ok_or_validation_with_not_called_on_some() {
    let opt = Some(42);
    let expensive_computation_called = std::cell::Cell::new(false);
    let result = opt.ok_or_validation_with(|| {
        expensive_computation_called.set(true);
        "Should not be computed".to_string()
    });
    assert_eq!(result.unwrap(), 42);
    assert!(!expensive_computation_called.get());
}

#[test]
fn test_ok_or_context() {
    let opt: Option<i32> = None;
    let result = opt.ok_or_context("Internal error");
    assert!(result.is_err());
    let err = result.unwrap_err();
    assert!(err.to_string().contains("Internal error"));
    assert_eq!(err.category(), "Error");
}

#[test]
fn test_ok_or_analysis() {
    let opt: Option<i32> = None;
    let result = opt.ok_or_analysis("Algorithm failed");
    assert!(result.is_err());
    let err = result.unwrap_err();
    assert!(err.to_string().contains("Algorithm failed"));
    assert_eq!(err.category(), "Analysis");
}

#[test]
fn test_result_with_context() {
    let result: Result<i32, &str> = Err("original error");
    let wrapped = result.with_context(|| "While processing data".to_string());
    assert!(wrapped.is_err());
    let err = wrapped.unwrap_err();
    assert!(err.to_string().contains("While processing data"));
    assert!(err.to_string().contains("original error"));
}

#[test]
fn test_result_with_context_ok() {
    let result: Result<i32, &str> = Ok(42);
    let wrapped = result.with_context(|| "Should not be called".to_string());
    assert_eq!(wrapped.unwrap(), 42);
}

#[test]
fn with_context_message_is_context_then_error() {
    let result: Result<(), String> = Err("disk full".to_string());
    let err = result.with_context(|| "saving cache".to_string()).unwrap_err();
    assert_eq!(err.to_string(), "saving cache: disk full");
    assert_eq!(err.category(), "Error");
}

#[test]
fn lazy_variants_keep_present_values_and_name_categories() {
    assert_eq!(Some(1).ok_or_context_with(|| "x".to_string()).unwrap(), 1);
    let err = None::<u8>.ok_or_analysis_with(|| "late".to_string()).unwrap_err();
    assert_eq!(err.category(), "Analysis");
    assert_eq!(err.to_string(), "late");
    let err = None::<u8>.ok_or_context_with(|| "ctx".to_string()).unwrap_err();
    assert!(matches!(err, AnalysisError::Other(_)));
}
