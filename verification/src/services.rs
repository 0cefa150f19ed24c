//! The services that the application is built from, and the use cases that
//! run them: judging the quality of a command, translating a query, and
//! learning from a correction.

use vstd::prelude::*;
use crate::domain::{CloudProvider, Command, CommandLearning, NaturalLanguageQuery, QualityAnalysis};
use crate::quality::{issues_of, points, suggestions_of, QualityAnalyzer};
use crate::ratio::Ratio;
use crate::repository::CommandLearningRepository;
use crate::text::strings;

verus! {

/// A service that judges the quality of commands.
pub trait CommandQualityService {
    /// Whether `analysis` is a judgement that the service may give of
    /// `command`. A service that says nothing of its judgements admits all.
    open spec fn may_judge(&self, command: &Command, analysis: &QualityAnalysis) -> bool {
        true
    }

    /// Judges `command`.
    fn analyze(&self, command: &Command) -> (r: QualityAnalysis)
        ensures
            self.may_judge(command, &r),
    ;
}

/// A service that translates queries into commands.
pub trait CommandTranslationService {
    /// Whether `outcome` is an answer that the service may give to `query`
    /// for the program of `provider`. A service that says nothing of its
    /// answers admits all.
    open spec fn may_translate(
        &self,
        query: &NaturalLanguageQuery,
        provider: CloudProvider,
        outcome: &Result<Command, String>,
    ) -> bool {
        true
    }

    /// The command for `query` with the program of `provider`, or the
    /// words of an error.
    fn translate(&self, query: &NaturalLanguageQuery, provider: CloudProvider) -> (r: Result<
        Command,
        String,
    >)
        ensures
            self.may_translate(query, provider, &r),
    ;
}

/// A service that learns from corrections.
pub trait CommandLearningService {
    /// The service is in a state that its operations can work on.
    spec fn valid(&self) -> bool;

    /// Whether an attempt to learn that `correct_command` is right for
    /// `query` may turn this service into `after` and end with `outcome`. A
    /// service that says nothing of how it learns admits every change and
    /// every outcome.
    open spec fn may_learn(
        &self,
        after: &Self,
        query: &NaturalLanguageQuery,
        correct_command: &Command,
        error_pattern: Option<String>,
        outcome: Result<(), String>,
    ) -> bool {
        true
    }

    /// Learns that `correct_command` is right for `query`.
    fn learn_from_correction(
        &mut self,
        query: &NaturalLanguageQuery,
        correct_command: &Command,
        error_pattern: Option<String>,
    ) -> (r: Result<(), String>)
        requires
            old(self).valid(),
        ensures
            final(self).valid(),
            old(self).may_learn(final(self), query, correct_command, error_pattern, r),
    ;

    /// The commands learned for queries that are similar to `query`.
    fn find_similar(&self, query: &NaturalLanguageQuery, threshold: &Ratio) -> (r: Vec<Command>)
        requires
            self.valid(),
    ;
}

/// The quality service that judges by the checks of the quality analyzer.
pub struct QualityAnalyzerService {
    analyzer: QualityAnalyzer,
}

impl QualityAnalyzerService {
    /// The patterns of well-formed commands that the service's analyzer
    /// holds, as regular expressions.
    pub closed spec fn patterns(&self) -> Seq<Seq<char>> {
        self.analyzer.patterns()
    }

    /// A service over an analyzer with the default patterns.
    pub fn new() -> (s: Self)
        ensures
            s.patterns() == seq![
                "^ibmcloud\\s+"@,
                "^ibmcloud\\s+(login|target|resource|cf|ks|cr|plugin)"@,
            ],
    {
        QualityAnalyzerService { analyzer: QualityAnalyzer::new() }
    }

    /// Whether `command` is acceptable: its score reaches six tenths and it
    /// has no issues.
    pub fn is_valid(&self, command: &Command) -> (r: bool)
        ensures
            r == (points(command.value@) >= 60 && issues_of(command.value@).len() == 0),
    {
        let analysis = self.analyze(command);
        assert(strings(analysis.issues@).len() == analysis.issues@.len());
        analysis.is_acceptable()
    }
}

impl CommandQualityService for QualityAnalyzerService {
    /// The judgement of a command is what the checks of the quality
    /// analyzer give for its text: the score, the issues and the suggestions.
    open spec fn may_judge(&self, command: &Command, analysis: &QualityAnalysis) -> bool {
        &&& analysis.score == (Ratio { num: points(command.value@) as u64, den: 100 })
        &&& strings(analysis.issues@) == issues_of(command.value@)
        &&& strings(analysis.suggestions@) == suggestions_of(command.value@)
    }

    fn analyze(&self, command: &Command) -> (r: QualityAnalysis)
        ensures
            r.score == (Ratio { num: points(command.value@) as u64, den: 100 }),
            r.score.unit(),
            strings(r.issues@) == issues_of(command.value@),
            strings(r.suggestions@) == suggestions_of(command.value@),
    {
        let analysis = self.analyzer.analyze(command.value.as_str());
        QualityAnalysis::new(analysis.score, analysis.issues, analysis.suggestions)
    }
}

/// The command `command_text` for the program of `provider`, with its
/// quality as the quality analyzer judges it.
pub fn assessed_command(command_text: String, provider: CloudProvider) -> (c: Command)
    ensures
        c.value == command_text,
        c.provider == provider,
        c.quality_score == (Ratio { num: points(command_text@) as u64, den: 100 }),
        strings(c.issues@) == issues_of(command_text@),
{
    let mut command = Command::new(command_text, provider);
    let service = QualityAnalyzerService::new();
    let analysis = service.analyze(&command);
    command.update_quality(analysis.score, analysis.issues);
    command
}

/// The correction that is kept where `correct_command` is learned for
/// `query` at the time `timestamp`.
pub open spec fn learning_at(
    query: &NaturalLanguageQuery,
    correct_command: &Command,
    error_pattern: Option<String>,
    timestamp: i64,
) -> CommandLearning {
    CommandLearning {
        query: query.text,
        correct_command: correct_command.value,
        error_pattern,
        timestamp,
    }
}

/// The learning service that keeps what it learns in a repository.
pub struct CommandLearningServiceImpl<R: CommandLearningRepository> {
    pub repository: R,
}

impl<R: CommandLearningRepository> CommandLearningServiceImpl<R> {
    /// A service over `repository`.
    pub fn new(repository: R) -> (s: Self)
        ensures
            s.repository == repository,
    {
        CommandLearningServiceImpl { repository }
    }
}

impl<R: CommandLearningRepository> CommandLearningService for CommandLearningServiceImpl<R> {
    open spec fn valid(&self) -> bool {
        self.repository.valid()
    }

    /// Learning hands the repository one correction to keep: the query,
    /// the command and the error pattern as they came, with the time at
    /// which it was learned. The outcome is that of the repository.
    open spec fn may_learn(
        &self,
        after: &Self,
        query: &NaturalLanguageQuery,
        correct_command: &Command,
        error_pattern: Option<String>,
        outcome: Result<(), String>,
    ) -> bool {
        exists|timestamp: i64|
            self.repository.may_save(
                &after.repository,
                #[trigger] learning_at(query, correct_command, error_pattern, timestamp),
                outcome,
            )
    }

    /// Keeps the correction in the repository, with the time at which it
    /// was learned.
    fn learn_from_correction(
        &mut self,
        query: &NaturalLanguageQuery,
        correct_command: &Command,
        error_pattern: Option<String>,
    ) -> (r: Result<(), String>) {
        let learning = CommandLearning::new(
            query.text.clone(),
            correct_command.value.clone(),
            error_pattern,
        );
        let ghost kept = learning;
        let r = self.repository.save(learning);
        assert(kept == learning_at(query, correct_command, error_pattern, kept.timestamp));
        r
    }

    /// No command: the repository is not searched.
    fn find_similar(&self, query: &NaturalLanguageQuery, threshold: &Ratio) -> (r: Vec<Command>)
        ensures
            r@.len() == 0,
    {
        Vec::new()
    }
}

/// The use case of judging the quality of a command.
pub struct AnalyzeCommandQualityUseCase<'a, Q: CommandQualityService> {
    quality_service: &'a Q,
}

impl<'a, Q: CommandQualityService> AnalyzeCommandQualityUseCase<'a, Q> {
    /// The service that the use case runs.
    pub closed spec fn service(&self) -> &Q {
        self.quality_service
    }

    /// The use case over `quality_service`.
    pub fn new(quality_service: &'a Q) -> (u: Self)
        ensures
            u.service() == quality_service,
    {
        AnalyzeCommandQualityUseCase { quality_service }
    }

    /// What the service makes of `command`: a judgement that the service
    /// may give of it.
    pub fn execute(&self, command: &Command) -> (r: QualityAnalysis)
        ensures
            self.service().may_judge(command, &r),
    {
        self.quality_service.analyze(command)
    }
}

/// The use case of translating a query.
pub struct TranslateCommandUseCase<'a, T: CommandTranslationService> {
    translation_service: &'a T,
}

impl<'a, T: CommandTranslationService> TranslateCommandUseCase<'a, T> {
    /// The service that the use case runs.
    pub closed spec fn service(&self) -> &T {
        self.translation_service
    }

    /// The use case over `translation_service`.
    pub fn new(translation_service: &'a T) -> (u: Self)
        ensures
            u.service() == translation_service,
    {
        TranslateCommandUseCase { translation_service }
    }

    /// What the service makes of `query`: an answer that the service may
    /// give to this query for the program of this provider.
    pub fn execute(&self, query: &NaturalLanguageQuery, provider: CloudProvider) -> (r: Result<
        Command,
        String,
    >)
        ensures
            self.service().may_translate(query, provider, &r),
    {
        self.translation_service.translate(query, provider)
    }
}

/// The use case of learning from a correction.
pub struct LearnFromCorrectionUseCase<'a, L: CommandLearningService> {
    learning_service: &'a mut L,
}

impl<'a, L: CommandLearningService> LearnFromCorrectionUseCase<'a, L> {
    /// The service that the use case runs, as it now is.
    pub closed spec fn service(&self) -> &L {
        &*self.learning_service
    }

    /// The service can work.
    pub closed spec fn ready(&self) -> bool {
        self.learning_service.valid()
    }

    /// The use case over `learning_service`.
    pub fn new(learning_service: &'a mut L) -> (u: Self)
        requires
            old(learning_service).valid(),
        ensures
            u.ready(),
            u.service() == *old(learning_service),
    {
        LearnFromCorrectionUseCase { learning_service }
    }

    /// Has the service learn that `correct_command` is right for `query`:
    /// the service changes and answers as it may for this correction.
    pub fn execute(
        &mut self,
        query: &NaturalLanguageQuery,
        correct_command: &Command,
        error_pattern: Option<String>,
    ) -> (r: Result<(), String>)
        requires
            old(self).ready(),
        ensures
            final(self).ready(),
            old(self).service().may_learn(
                final(self).service(),
                query,
                correct_command,
                error_pattern,
                r,
            ),
    {
        self.learning_service.learn_from_correction(query, correct_command, error_pattern)
    }
}

} // verus!
