//! The decisions of the configuration store. The caller looks at the files and hands over
//! what it saw; these functions say what the configuration is, what to write, which path
//! the database has, and which steps a relocation takes.
use crate::config::{
    config_json, config_text, database_path_override, decode_config, decoded_config,
    default_config, default_settings, migrate_config, migrated_config, path_override, text_opt,
    AISettings, AppConfig, AppConfigView,
};
use crate::json::{json_top, member_text, members_of, object_members, parse_json, JsonNodeView};
use vstd::prelude::*;

verus! {

/// What the caller found at a file's place.
pub enum FileRead {
    /// No file there.
    Missing,
    /// A file that could not be read as text.
    Unreadable,
    /// The file's text.
    Text(String),
}

/// The mathematical form of [`FileRead`].
pub enum FileView {
    Missing,
    Unreadable,
    Text(Seq<char>),
}

impl View for FileRead {
    type V = FileView;

    open spec fn view(&self) -> FileView {
        match self {
            FileRead::Missing => FileView::Missing,
            FileRead::Unreadable => FileView::Unreadable,
            FileRead::Text(t) => FileView::Text(t@),
        }
    }
}

/// The database path that a backup of the configuration still names, if any.
pub open spec fn recovered_path(backup: FileView) -> Option<Seq<char>> {
    match backup {
        FileView::Text(t) => path_override(object_members(t)),
        _ => None,
    }
}

/// The configuration rebuilt after the file was lost: defaults, with the database path
/// that the backup names.
pub open spec fn recovered_config(backup: FileView) -> AppConfigView {
    AppConfigView { database_path: recovered_path(backup), ai_settings: default_settings() }
}

/// A file that is there but is not JSON text.
pub open spec fn is_corrupt(file: FileView) -> bool {
    match file {
        FileView::Missing => false,
        FileView::Unreadable => true,
        FileView::Text(t) => json_top(t) is None,
    }
}

/// The configuration that loading yields, from the configuration file and its backup.
pub open spec fn loaded_config(file: FileView, backup: FileView) -> AppConfigView {
    match file {
        FileView::Missing => default_config(),
        FileView::Text(t) => if json_top(t) is Some {
            match decoded_config(t) {
                Some(c) => c,
                None => migrated_config(t),
            }
        } else {
            recovered_config(backup)
        },
        FileView::Unreadable => recovered_config(backup),
    }
}

/// Loading writes the configuration file back: whenever it is there and not of the
/// current shape.
pub open spec fn load_rewrites(file: FileView) -> bool {
    match file {
        FileView::Missing => false,
        FileView::Text(t) => decoded_config(t) is None,
        FileView::Unreadable => true,
    }
}

/// Loading first copies the configuration file to its backup place: when the file is not
/// JSON and there is no backup yet.
pub open spec fn load_backs_up(file: FileView, backup: FileView) -> bool {
    is_corrupt(file) && backup is Missing
}

/// What loading the configuration comes to.
pub struct LoadPlan {
    /// The configuration to hand to the caller.
    pub config: AppConfig,
    /// Copy the configuration file to its backup place before anything is written.
    pub backup_first: bool,
    /// Text to write over the configuration file. A failure to write loses nothing:
    /// `config` is still the answer.
    pub rewrite: Option<String>,
}

/// The database path that a backup of the configuration still names, if any.
pub fn recovered_database_path(backup: &FileRead) -> (r: Option<String>)
    ensures
        text_opt(r) == recovered_path(backup@),
{
    match backup {
        FileRead::Text(t) => database_path_override(&members_of(t.as_str())),
        _ => None,
    }
}

fn recovery_plan(backup_file: &FileRead) -> (r: LoadPlan)
    ensures
        r.config@ == recovered_config(backup_file@),
        r.backup_first == (backup_file@ is Missing),
        r.rewrite matches Some(t) && t@ == config_text(r.config@),
{
    let config = AppConfig {
        database_path: recovered_database_path(backup_file),
        ai_settings: AISettings::default(),
    };
    let text = config_json(&config);
    let backup_first = match backup_file {
        FileRead::Missing => true,
        _ => false,
    };
    LoadPlan { config, backup_first, rewrite: Some(text) }
}

/// Loads the configuration from what the caller found at the configuration file's place and
/// at its backup's place. Loading never fails: a missing file gives the defaults, a file of
/// the current shape is taken as it is, any other JSON is carried over field by field, and a
/// file that is not JSON gives the defaults with the database path that the backup names.
pub fn load_config(config_file: &FileRead, backup_file: &FileRead) -> (r: LoadPlan)
    ensures
        r.config@ == loaded_config(config_file@, backup_file@),
        r.backup_first == load_backs_up(config_file@, backup_file@),
        r.rewrite is Some == load_rewrites(config_file@),
        r.rewrite matches Some(t) ==> t@ == config_text(r.config@),
{
    match config_file {
        FileRead::Missing => LoadPlan { config: AppConfig::default(), backup_first: false, rewrite: None },
        FileRead::Unreadable => recovery_plan(backup_file),
        FileRead::Text(t) => match parse_json(t.as_str()) {
            None => recovery_plan(backup_file),
            Some(_) => match decode_config(t.as_str()) {
                Some(config) => LoadPlan { config, backup_first: false, rewrite: None },
                None => {
                    let config = migrate_config(t.as_str());
                    let text = config_json(&config);
                    LoadPlan { config, backup_first: false, rewrite: Some(text) }
                },
            },
        },
    }
}

// ---------------------------------------------------------------------------------------
// Laws of loading
// ---------------------------------------------------------------------------------------

/// With no configuration file, loading gives exactly the defaults and writes nothing.
pub proof fn lemma_missing_file_gives_defaults(backup: FileView)
    ensures
        loaded_config(FileView::Missing, backup) == default_config(),
        !load_rewrites(FileView::Missing),
        !load_backs_up(FileView::Missing, backup),
{
}

/// A file of the current shape is taken as it is and nothing is written; saving what was
/// loaded writes the same text as saving a new configuration with the same values.
pub proof fn lemma_current_shape_kept(text: Seq<char>, backup: FileView, fresh: AppConfigView)
    requires
        decoded_config(text) == Some(fresh),
    ensures
        loaded_config(FileView::Text(text), backup) == fresh,
        !load_rewrites(FileView::Text(text)),
        !load_backs_up(FileView::Text(text), backup),
        config_text(loaded_config(FileView::Text(text), backup)) == config_text(fresh),
{
}

/// A `database_path` that is explicitly null is no override, in any document that is a
/// JSON object.
pub proof fn lemma_null_path_is_no_override(text: Seq<char>, backup: FileView)
    requires
        json_top(text) matches Some(JsonNodeView::Object(ms)) && member_text(
            ms,
            "database_path"@,
        ) matches Some(t) && json_top(t) == Some(JsonNodeView::Null),
    ensures
        loaded_config(FileView::Text(text), backup).database_path is None,
{
}

/// A configuration file that is not JSON, with no backup yet, is first copied to the backup
/// place, then replaced by the defaults, which loading returns.
pub proof fn lemma_corrupt_file_backed_up_and_reset(file: FileView)
    requires
        is_corrupt(file),
    ensures
        loaded_config(file, FileView::Missing) == default_config(),
        load_backs_up(file, FileView::Missing),
        load_rewrites(file),
{
}

// ---------------------------------------------------------------------------------------
// Where the database is
// ---------------------------------------------------------------------------------------

/// The database path in use: the override when its directory is there or could be made,
/// else the default path.
pub open spec fn effective_path(
    c: AppConfigView,
    override_dir_ready: bool,
    default_path: Seq<char>,
) -> Seq<char> {
    match c.database_path {
        Some(p) => if override_dir_ready {
            p
        } else {
            default_path
        },
        None => default_path,
    }
}

/// The database path in use. `override_dir_ready` tells whether the directory of the
/// configured override exists or could be created; the configuration is left as it is.
pub fn get_database_path(config: &AppConfig, override_dir_ready: bool, default_path: &str) -> (r:
    String)
    ensures
        r@ == effective_path(config@, override_dir_ready, default_path@),
{
    match &config.database_path {
        Some(p) => if override_dir_ready {
            p.clone()
        } else {
            String::from_str(default_path)
        },
        None => String::from_str(default_path),
    }
}

/// An override whose directory cannot be made gives way to the default path for that call
/// only: the configuration is not changed, and once the directory can be made the override
/// is the path again.
pub proof fn lemma_override_outlives_fallback(c: AppConfigView, default_path: Seq<char>)
    requires
        c.database_path is Some,
    ensures
        effective_path(c, false, default_path) == default_path,
        effective_path(c, true, default_path) == c.database_path.unwrap(),
{
}

/// The connection string for a database file.
pub fn get_database_url(path: &str) -> (r: String)
    ensures
        r@ == "sqlite:"@ + path@,
{
    let mut r = String::from_str("sqlite:");
    r.append(path);
    r
}

// ---------------------------------------------------------------------------------------
// Relocation
// ---------------------------------------------------------------------------------------

/// One filesystem step of moving the database to another directory.
#[derive(Clone, Copy, Debug, PartialEq, Eq, Structural)]
pub enum RelocateStep {
    /// Copy the configuration file to its backup place.
    BackupConfig,
    /// Create the target directory and its parents.
    CreateTargetDir,
    /// Copy the file already at the target path to `<name>.db.backup`.
    BackupTarget,
    /// Copy the database file to the target path.
    CopyDatabase,
}

/// What the caller found before a relocation.
#[derive(Clone, Copy, Debug, PartialEq, Eq, Structural)]
pub struct RelocationFacts {
    pub config_exists: bool,
    pub target_dir_exists: bool,
    pub database_exists: bool,
    pub target_exists: bool,
}

/// The steps of a relocation, in order. The configuration is backed up before anything
/// else; the database is copied (never moved) only when it exists, after the file at the
/// target has been backed up.
pub open spec fn relocation_steps(f: RelocationFacts) -> Seq<RelocateStep> {
    (if f.config_exists {
        seq![RelocateStep::BackupConfig]
    } else {
        Seq::empty()
    }) + (if !f.target_dir_exists {
        seq![RelocateStep::CreateTargetDir]
    } else {
        Seq::empty()
    }) + (if f.database_exists {
        (if f.target_exists {
            seq![RelocateStep::BackupTarget]
        } else {
            Seq::empty()
        }) + seq![RelocateStep::CopyDatabase]
    } else {
        Seq::empty()
    })
}

/// The steps of moving the database to another directory. Each one is fatal when it fails;
/// once all have succeeded the configuration is pointed at the target
/// ([`set_database_path`]).
pub fn change_database_location(facts: RelocationFacts) -> (r: Vec<RelocateStep>)
    ensures
        r@ == relocation_steps(facts),
{
    let mut r: Vec<RelocateStep> = Vec::new();
    if facts.config_exists {
        r.push(RelocateStep::BackupConfig);
    }
    if !facts.target_dir_exists {
        r.push(RelocateStep::CreateTargetDir);
    }
    if facts.database_exists {
        if facts.target_exists {
            r.push(RelocateStep::BackupTarget);
        }
        r.push(RelocateStep::CopyDatabase);
    }
    proof {
        let a: Seq<RelocateStep> = if facts.config_exists {
            seq![RelocateStep::BackupConfig]
        } else {
            Seq::empty()
        };
        let b: Seq<RelocateStep> = if !facts.target_dir_exists {
            seq![RelocateStep::CreateTargetDir]
        } else {
            Seq::empty()
        };
        let c: Seq<RelocateStep> = if facts.database_exists {
            (if facts.target_exists {
                seq![RelocateStep::BackupTarget]
            } else {
                Seq::empty()
            }) + seq![RelocateStep::CopyDatabase]
        } else {
            Seq::empty()
        };
        assert(r@ =~= a + b + c);
    }
    r
}

/// What a failure of a step is reported as, before the cause.
pub open spec fn step_failure(step: RelocateStep) -> Seq<char> {
    match step {
        RelocateStep::BackupConfig => "备份配置文件失败"@,
        RelocateStep::CreateTargetDir => "创建目标目录失败"@,
        RelocateStep::BackupTarget => "备份目标位置已存在的文件失败"@,
        RelocateStep::CopyDatabase => "复制数据库文件失败"@,
    }
}

impl RelocateStep {
    /// What a failure of the step is reported as, before the cause.
    pub fn failure_message(&self) -> (r: &'static str)
        ensures
            r@ == step_failure(*self),
    {
        match self {
            RelocateStep::BackupConfig => "备份配置文件失败",
            RelocateStep::CreateTargetDir => "创建目标目录失败",
            RelocateStep::BackupTarget => "备份目标位置已存在的文件失败",
            RelocateStep::CopyDatabase => "复制数据库文件失败",
        }
    }
}

/// The configuration after a relocation to `path`: only the override changes.
pub open spec fn relocated(c: AppConfigView, path: Seq<char>) -> AppConfigView {
    AppConfigView { database_path: Some(path), ai_settings: c.ai_settings }
}

/// Points the configuration at the database file `path`.
pub fn set_database_path(config: &mut AppConfig, path: String)
    ensures
        final(config)@ == relocated(old(config)@, path@),
{
    config.database_path = Some(path);
}

/// When there is no database to move, no file is made at the target, and the configuration
/// still ends up pointing there.
pub proof fn lemma_relocate_without_database(f: RelocationFacts, c: AppConfigView, target: Seq<
    char,
>)
    requires
        !f.database_exists,
    ensures
        !relocation_steps(f).contains(RelocateStep::CopyDatabase),
        !relocation_steps(f).contains(RelocateStep::BackupTarget),
        relocated(c, target).database_path == Some(target),
{
    let s = relocation_steps(f);
    assert forall|i: int| 0 <= i < s.len() implies s[i] != RelocateStep::CopyDatabase
        && s[i] != RelocateStep::BackupTarget by {
        if f.config_exists {
            if i == 0 {
            } else {
                assert(s[i] == RelocateStep::CreateTargetDir);
            }
        } else {
            assert(s[i] == RelocateStep::CreateTargetDir);
        }
    }
}

/// When a database is moved onto a file of the same name, that file is backed up first,
/// and the database is copied after.
pub proof fn lemma_relocate_keeps_target(f: RelocationFacts)
    requires
        f.database_exists,
        f.target_exists,
    ensures
        ({
            let s = relocation_steps(f);
            s.len() >= 2 && s[s.len() - 2] == RelocateStep::BackupTarget && s[s.len() - 1]
                == RelocateStep::CopyDatabase
        }),
{
}

// ---------------------------------------------------------------------------------------
// AI settings
// ---------------------------------------------------------------------------------------

/// The AI settings of a configuration.
pub fn get_ai_settings(config: &AppConfig) -> (r: AISettings)
    ensures
        r@ == config@.ai_settings,
{
    AISettings {
        provider: config.ai_settings.provider,
        base_url: config.ai_settings.base_url.clone(),
        api_key: config.ai_settings.api_key.clone(),
        model: config.ai_settings.model.clone(),
    }
}

/// Replaces the AI settings of a configuration; the database path stays.
pub fn save_ai_settings(config: &mut AppConfig, settings: AISettings)
    ensures
        final(config)@ == (AppConfigView { database_path: old(config)@.database_path, ai_settings: settings@ }),
{
    config.ai_settings = settings;
}

} // verus!
