use cuc::domain::{CloudProvider, Command, NaturalLanguageQuery, QualityAnalysis};
use cuc::ratio::Ratio;
use cuc::repository::{CommandLearningRepository, FileCommandLearningRepository};
use cuc::services::{
    assessed_command, AnalyzeCommandQualityUseCase, CommandLearningService,
    CommandLearningServiceImpl, CommandQualityService, CommandTranslationService,
    LearnFromCorrectionUseCase, QualityAnalyzerService, TranslateCommandUseCase,
};

struct Fixed;

impl CommandQualityService for Fixed {
    fn analyze(&self, command: &Command) -> QualityAnalysis {
        QualityAnalysis::new(Ratio::percent(42), vec![command.value.clone()], Vec::new())
    }
}

impl CommandTranslationService for Fixed {
    fn translate(
        &self,
        query: &NaturalLanguageQuery,
        provider: CloudProvider,
    ) -> Result<Command, String> {
        if query.as_str().is_empty() {
            Err("nothing to translate".to_string())
        } else {
            Ok(Command::new(format!("{} {}", provider.cli_command(), query.as_str()), provider))
        }
    }
}

#[test]
fn the_quality_service_judges_by_the_checks_of_the_analyzer() {
    let service = QualityAnalyzerService::new();
    let good = Command::new("ibmcloud resource groups".to_string(), CloudProvider::IBMCloud);
    let analysis = service.analyze(&good);
    assert_eq!(analysis.score, Ratio::percent(100));
    assert!(analysis.issues.is_empty());
    assert!(analysis.suggestions.is_empty());
    assert!(service.is_valid(&good));

    let bad = Command::new("ls".to_string(), CloudProvider::IBMCloud);
    let analysis = service.analyze(&bad);
    assert_eq!(analysis.score, Ratio::percent(30));
    assert_eq!(
        analysis.issues,
        vec!["Command does not start with 'ibmcloud'", "Command is too short"]
    );
    assert!(!service.is_valid(&bad));
}

#[test]
fn an_assessed_command_carries_its_quality() {
    let command = assessed_command("ibmcloud target --cf".to_string(), CloudProvider::IBMCloud);
    assert_eq!(command.value, "ibmcloud target --cf");
    assert_eq!(command.provider, CloudProvider::IBMCloud);
    assert_eq!(command.quality_score, Ratio::percent(100));
    assert!(command.issues.is_empty());
    assert!(command.is_valid());

    let poor = assessed_command("error".to_string(), CloudProvider::AWS);
    assert_eq!(poor.quality_score, Ratio::percent(15));
    assert_eq!(
        poor.issues,
        vec![
            "Command does not start with 'ibmcloud'",
            "Command is too short",
            "Command contains error indicators"
        ]
    );
    assert!(!poor.is_valid());
}

#[test]
fn the_learning_service_keeps_corrections_in_its_repository() {
    let repository = FileCommandLearningRepository::new("learned.json");
    let mut service = CommandLearningServiceImpl::new(repository);
    let query = NaturalLanguageQuery::from_text("list databases");
    let command = Command::new("ibmcloud resource service-instances".to_string(), CloudProvider::IBMCloud);
    service.learn_from_correction(&query, &command, Some("not found".to_string())).unwrap();
    assert_eq!(service.repository.len(), 1);
    let kept = service.repository.find_by_query(&query).unwrap();
    assert_eq!(kept.query, "list databases");
    assert_eq!(kept.correct_command, "ibmcloud resource service-instances");
    assert_eq!(kept.error_pattern.as_deref(), Some("not found"));
    assert!(kept.timestamp > 1_500_000_000);
    assert!(service.find_similar(&query, &Ratio::new(0, 1)).is_empty());
}

#[test]
fn the_use_cases_hand_on_to_their_services() {
    let fixed = Fixed;
    let command = Command::new("x".to_string(), CloudProvider::GCP);
    let analysis = AnalyzeCommandQualityUseCase::new(&fixed).execute(&command);
    assert_eq!(analysis.score, Ratio::percent(42));
    assert_eq!(analysis.issues, vec!["x"]);

    let translate = TranslateCommandUseCase::new(&fixed);
    let done = translate
        .execute(&NaturalLanguageQuery::from_text("s3 ls"), CloudProvider::AWS)
        .unwrap();
    assert_eq!(done.value, "aws s3 ls");
    assert_eq!(
        translate.execute(&NaturalLanguageQuery::from_text(""), CloudProvider::AWS).unwrap_err(),
        "nothing to translate"
    );

    let mut service = CommandLearningServiceImpl::new(FileCommandLearningRepository::new("f"));
    {
        let mut learn = LearnFromCorrectionUseCase::new(&mut service);
        learn.execute(&NaturalLanguageQuery::from_text("q"), &command, None).unwrap();
        learn.execute(&NaturalLanguageQuery::from_text("q"), &done, None).unwrap();
    }
    assert_eq!(service.repository.len(), 1);
    let kept = service.repository.find_by_query(&NaturalLanguageQuery::from_text("q")).unwrap();
    assert_eq!(kept.correct_command, "aws s3 ls");
}
