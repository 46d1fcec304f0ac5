use manifest::models::{
    AgentType, CriterionStatus, FeatureState, SessionStatus, TaskStatus, VerificationType,
};

#[test]
fn criterion_status_names_round_trip() {
    for s in [CriterionStatus::Pending, CriterionStatus::Complete, CriterionStatus::Blocked] {
        assert_eq!(CriterionStatus::from_str(s.as_str()), Some(s));
    }
    assert_eq!(CriterionStatus::Pending.as_str(), "pending");
    assert_eq!(CriterionStatus::from_str("unknown"), None);
    assert_eq!(CriterionStatus::from_str(""), None);
}

#[test]
fn verification_type_names_round_trip() {
    for s in [VerificationType::Manual, VerificationType::Test] {
        assert_eq!(VerificationType::from_str(s.as_str()), Some(s));
    }
    assert_eq!(VerificationType::Test.as_str(), "test");
    assert_eq!(VerificationType::from_str("auto"), None);
}

#[test]
fn feature_state_names_round_trip() {
    for s in [
        FeatureState::Proposed,
        FeatureState::Specified,
        FeatureState::Implemented,
        FeatureState::Deprecated,
    ] {
        assert_eq!(FeatureState::from_str(s.as_str()), Some(s));
    }
    assert_eq!(FeatureState::Implemented.as_str(), "implemented");
    assert_eq!(FeatureState::from_str("done"), None);
}

#[test]
fn session_status_names_round_trip() {
    for s in [SessionStatus::Active, SessionStatus::Completed, SessionStatus::Failed] {
        assert_eq!(SessionStatus::from_str(s.as_str()), Some(s));
    }
    assert_eq!(SessionStatus::from_str("paused"), None);
}

#[test]
fn task_status_names_round_trip() {
    for s in [TaskStatus::Pending, TaskStatus::Running, TaskStatus::Completed, TaskStatus::Failed] {
        assert_eq!(TaskStatus::from_str(s.as_str()), Some(s));
    }
    assert_eq!(TaskStatus::Running.as_str(), "running");
    // A name of another enumeration is not accepted here.
    assert_eq!(TaskStatus::from_str("active"), None);
}

#[test]
fn agent_type_names_round_trip() {
    for s in [AgentType::Assistant, AgentType::Gemini, AgentType::Codex] {
        assert_eq!(AgentType::from_str(s.as_str()), Some(s));
    }
    assert_eq!(AgentType::from_str("gpt"), None);
}
