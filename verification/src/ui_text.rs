//! The user-interface texts in each supported language.
use vstd::prelude::*;

use crate::models::AppLocale;

verus! {

/// A piece of user-interface text.
#[derive(Debug, Clone, Copy, PartialEq, Eq, Structural)]
pub enum UiText {
    AppTitle,
    AppSubtitle,
    BtnSave,
    BtnUninstallEnabled,
    BtnInstallEnabled,
    BtnLoadConfig,
    BtnCopySetup,
    BtnCopyJson,
    Profiles,
    ProfilesHint,
    BtnNew,
    BtnDuplicate,
    BtnDelete,
    ProfileSection,
    ScopeLabel,
    ScopeHintLabel,
    OpenCodePathLabel,
    OpenCodePathHint,
    OperatorNoteLabel,
    OperatorNoteHint,
    McpServersSection,
    LanguageSection,
    LanguageValueLabel,
    ServerCountLabel,
    TransportLabel,
    TransportStdioLabel,
    TransportSseLabel,
    TransportHttpLabel,
    ServerCardInstalled,
    ServerCardNotInstalled,
    ServerIdLabel,
    CommandLabel,
    ArgsLabel,
    WorkingDirectoryLabel,
    EndpointLabel,
    EnvVarsLabel,
    AddEnvVarButton,
    NotesLabel,
    RemoveServerButton,
    AddServerButton,
    GeneratedConfigTitle,
    GeneratedConfigHint,
    ValidationPassed,
    ValidationFixHint,
    OpenCodeGuideTitle,
    FlowTitle,
    FlowStep1,
    FlowStep2,
    FlowStep3,
    FlowStep4,
    CopyJsonAgain,
    FlowScopePrefix,
    BtnInstallServerCard,
    BtnUninstallServerCard,
    NotesHint,
    ProfileNameHint,
    ConfigManagerTitle,
    ReloadInstalledStateButton,
    ManagedPathLabel,
    NoServerInConfig,
    InstalledServerIds,
    StatusReady,
    StatusUnsaved,
    StatusLoadedConfigState,
    StatusConfigReadFailed,
    StatusInstallFailed,
    StatusUninstallFailed,
    StatusEmptyIdFailed,
    StatusOperationFailed,
    StatusSaveFailed,
    StatusSaved,
    StatusCopiedJson,
    StatusCopiedSetup,
    StatusProfileCreated,
    StatusProfileDuplicated,
    StatusProfileDeleteBlocked,
    StatusProfileDeleted,
    StatusServerRemoved,
    StatusServerAdded,
    StatusLanguageChanged,
}

/// The text shown for `key` in `locale`.
pub open spec fn ui_text(locale: AppLocale, key: UiText) -> Seq<char> {
    match (locale, key) {
        (AppLocale::English, UiText::AppTitle) => "OpenMCP"@,
        (AppLocale::English, UiText::AppSubtitle) => "Build OpenCode MCP configs without hand-editing JSON."@,
        (AppLocale::English, UiText::BtnSave) => "Save"@,
        (AppLocale::English, UiText::BtnUninstallEnabled) => "Uninstall Enabled"@,
        (AppLocale::English, UiText::BtnInstallEnabled) => "Install Enabled"@,
        (AppLocale::English, UiText::BtnLoadConfig) => "Load Config"@,
        (AppLocale::English, UiText::BtnCopySetup) => "Copy Setup"@,
        (AppLocale::English, UiText::BtnCopyJson) => "Copy JSON"@,
        (AppLocale::English, UiText::Profiles) => "Profiles"@,
        (AppLocale::English, UiText::ProfilesHint) => "Separate project-specific MCP wiring from global setups."@,
        (AppLocale::English, UiText::BtnNew) => "New"@,
        (AppLocale::English, UiText::BtnDuplicate) => "Duplicate"@,
        (AppLocale::English, UiText::BtnDelete) => "Delete"@,
        (AppLocale::English, UiText::ProfileSection) => "Profile"@,
        (AppLocale::English, UiText::ScopeLabel) => "Scope"@,
        (AppLocale::English, UiText::ScopeHintLabel) => "Project or global scope"@,
        (AppLocale::English, UiText::OpenCodePathLabel) => "OpenCode target path hint"@,
        (AppLocale::English, UiText::OpenCodePathHint) => "Where you expect to paste or merge the config"@,
        (AppLocale::English, UiText::OperatorNoteLabel) => "Operator note"@,
        (AppLocale::English, UiText::OperatorNoteHint) => "Explain where or how this JSON should be applied"@,
        (AppLocale::English, UiText::McpServersSection) => "MCP Servers"@,
        (AppLocale::English, UiText::LanguageSection) => "Language"@,
        (AppLocale::English, UiText::LanguageValueLabel) => "Select language"@,
        (AppLocale::English, UiText::ServerCountLabel) => "Server"@,
        (AppLocale::English, UiText::TransportLabel) => "Transport"@,
        (AppLocale::English, UiText::TransportStdioLabel) => "stdio"@,
        (AppLocale::English, UiText::TransportSseLabel) => "sse"@,
        (AppLocale::English, UiText::TransportHttpLabel) => "http"@,
        (AppLocale::English, UiText::ServerCardInstalled) => "Installed"@,
        (AppLocale::English, UiText::ServerCardNotInstalled) => "Not installed"@,
        (AppLocale::English, UiText::ServerIdLabel) => "Server id"@,
        (AppLocale::English, UiText::CommandLabel) => "Command"@,
        (AppLocale::English, UiText::ArgsLabel) => "Arguments"@,
        (AppLocale::English, UiText::WorkingDirectoryLabel) => "Working directory"@,
        (AppLocale::English, UiText::EndpointLabel) => "Endpoint URL"@,
        (AppLocale::English, UiText::EnvVarsLabel) => "Environment variables"@,
        (AppLocale::English, UiText::AddEnvVarButton) => "Add Env Var"@,
        (AppLocale::English, UiText::NotesLabel) => "Notes"@,
        (AppLocale::English, UiText::RemoveServerButton) => "Remove"@,
        (AppLocale::English, UiText::AddServerButton) => "Add MCP Server"@,
        (AppLocale::English, UiText::GeneratedConfigTitle) => "Generated Config"@,
        (AppLocale::English, UiText::GeneratedConfigHint) => "Paste this `mcpServers` block into the place OpenCode expects."@,
        (AppLocale::English, UiText::ValidationPassed) => "Validation passed"@,
        (AppLocale::English, UiText::ValidationFixHint) => "Fix these issues before exporting"@,
        (AppLocale::English, UiText::OpenCodeGuideTitle) => "OpenCode Guide"@,
        (AppLocale::English, UiText::FlowTitle) => "Suggested flow"@,
        (AppLocale::English, UiText::FlowStep1) => "1. Install the MCP server runtime or binary used by the command."@,
        (AppLocale::English, UiText::FlowStep2) => "2. Verify the command runs outside OpenCode first."@,
        (AppLocale::English, UiText::FlowStep3) => "3. Copy the generated JSON and merge it into your OpenCode config."@,
        (AppLocale::English, UiText::FlowStep4) => "4. Reload OpenCode and confirm the server appears."@,
        (AppLocale::English, UiText::FlowScopePrefix) => "Recommended scope"@,
        (AppLocale::English, UiText::BtnInstallServerCard) => "Install to OpenCode"@,
        (AppLocale::English, UiText::BtnUninstallServerCard) => "Uninstall from OpenCode"@,
        (AppLocale::English, UiText::NotesHint) => "Any reminder about installation, auth, or expected capabilities"@,
        (AppLocale::English, UiText::ProfileNameHint) => "Profile name"@,
        (AppLocale::English, UiText::CopyJsonAgain) => "Copy JSON Again"@,
        (AppLocale::English, UiText::ConfigManagerTitle) => "OpenCode Config Manager"@,
        (AppLocale::English, UiText::ReloadInstalledStateButton) => "Reload Installed State"@,
        (AppLocale::English, UiText::ManagedPathLabel) => "Managed path"@,
        (AppLocale::English, UiText::NoServerInConfig) => "No MCP servers found in config."@,
        (AppLocale::English, UiText::InstalledServerIds) => "Current installed server ids:"@,
        (AppLocale::English, UiText::StatusReady) => "Ready"@,
        (AppLocale::English, UiText::StatusLoadedConfigState) => "Loaded OpenCode config state"@,
        (AppLocale::English, UiText::StatusConfigReadFailed) => "Config read failed"@,
        (AppLocale::English, UiText::StatusInstallFailed) => "Install failed"@,
        (AppLocale::English, UiText::StatusUninstallFailed) => "Uninstall failed"@,
        (AppLocale::English, UiText::StatusEmptyIdFailed) => "Install/Uninstall failed: server id is empty."@,
        (AppLocale::English, UiText::StatusOperationFailed) => "Operation failed"@,
        (AppLocale::English, UiText::StatusSaveFailed) => "Save failed"@,
        (AppLocale::English, UiText::StatusSaved) => "Saved"@,
        (AppLocale::English, UiText::StatusCopiedJson) => "Generated JSON copied to clipboard"@,
        (AppLocale::English, UiText::StatusCopiedSetup) => "Setup instructions copied to clipboard"@,
        (AppLocale::English, UiText::StatusProfileCreated) => "New profile created"@,
        (AppLocale::English, UiText::StatusProfileDuplicated) => "Profile duplicated"@,
        (AppLocale::English, UiText::StatusProfileDeleteBlocked) => "At least one profile must remain"@,
        (AppLocale::English, UiText::StatusProfileDeleted) => "Profile deleted"@,
        (AppLocale::English, UiText::StatusServerRemoved) => "Server removed"@,
        (AppLocale::English, UiText::StatusServerAdded) => "Server added"@,
        (AppLocale::English, UiText::StatusLanguageChanged) => "Language changed"@,
        (AppLocale::English, UiText::StatusUnsaved) => "Unsaved changes"@,
        (AppLocale::Korean, UiText::AppTitle) => "OpenMCP"@,
        (AppLocale::Korean, UiText::AppSubtitle) => "OpenCode MCP 설정을 JSON을 직접 편집하지 않고 생성하세요."@,
        (AppLocale::Korean, UiText::BtnSave) => "저장"@,
        (AppLocale::Korean, UiText::BtnUninstallEnabled) => "활성 서버 제거"@,
        (AppLocale::Korean, UiText::BtnInstallEnabled) => "활성 서버 설치"@,
        (AppLocale::Korean, UiText::BtnLoadConfig) => "설정 다시 불러오기"@,
        (AppLocale::Korean, UiText::BtnCopySetup) => "설치 안내 복사"@,
        (AppLocale::Korean, UiText::BtnCopyJson) => "JSON 복사"@,
        (AppLocale::Korean, UiText::Profiles) => "프로필"@,
        (AppLocale::Korean, UiText::ProfilesHint) => "프로젝트별 MCP 설정과 전역 설정을 분리해서 관리할 수 있습니다."@,
        (AppLocale::Korean, UiText::BtnNew) => "새로 만들기"@,
        (AppLocale::Korean, UiText::BtnDuplicate) => "복제"@,
        (AppLocale::Korean, UiText::BtnDelete) => "삭제"@,
        (AppLocale::Korean, UiText::ProfileSection) => "프로필"@,
        (AppLocale::Korean, UiText::ScopeLabel) => "적용 범위"@,
        (AppLocale::Korean, UiText::ScopeHintLabel) => "프로젝트 또는 전역"@,
        (AppLocale::Korean, UiText::OpenCodePathLabel) => "OpenCode 경로 힌트"@,
        (AppLocale::Korean, UiText::OpenCodePathHint) => "설정을 붙여넣거나 병합할 경로를 입력하세요"@,
        (AppLocale::Korean, UiText::OperatorNoteLabel) => "운영 메모"@,
        (AppLocale::Korean, UiText::OperatorNoteHint) => "이 JSON 적용 위치/방식을 설명하세요"@,
        (AppLocale::Korean, UiText::McpServersSection) => "MCP 서버"@,
        (AppLocale::Korean, UiText::LanguageSection) => "언어"@,
        (AppLocale::Korean, UiText::LanguageValueLabel) => "언어 선택"@,
        (AppLocale::Korean, UiText::ServerCountLabel) => "서버"@,
        (AppLocale::Korean, UiText::TransportLabel) => "전송 방식"@,
        (AppLocale::Korean, UiText::TransportStdioLabel) => "stdio"@,
        (AppLocale::Korean, UiText::TransportSseLabel) => "sse"@,
        (AppLocale::Korean, UiText::TransportHttpLabel) => "http"@,
        (AppLocale::Korean, UiText::ServerCardInstalled) => "설치됨"@,
        (AppLocale::Korean, UiText::ServerCardNotInstalled) => "미설치"@,
        (AppLocale::Korean, UiText::ServerIdLabel) => "서버 ID"@,
        (AppLocale::Korean, UiText::CommandLabel) => "실행 명령"@,
        (AppLocale::Korean, UiText::ArgsLabel) => "인자"@,
        (AppLocale::Korean, UiText::WorkingDirectoryLabel) => "작업 디렉터리"@,
        (AppLocale::Korean, UiText::EndpointLabel) => "엔드포인트 URL"@,
        (AppLocale::Korean, UiText::EnvVarsLabel) => "환경 변수"@,
        (AppLocale::Korean, UiText::AddEnvVarButton) => "환경 변수 추가"@,
        (AppLocale::Korean, UiText::NotesLabel) => "메모"@,
        (AppLocale::Korean, UiText::RemoveServerButton) => "제거"@,
        (AppLocale::Korean, UiText::AddServerButton) => "MCP 서버 추가"@,
        (AppLocale::Korean, UiText::GeneratedConfigTitle) => "생성된 설정"@,
        (AppLocale::Korean, UiText::GeneratedConfigHint) => "OpenCode가 기대하는 위치에 `mcpServers` 블록을 붙여 넣으세요."@,
        (AppLocale::Korean, UiText::ValidationPassed) => "유효성 검사 통과"@,
        (AppLocale::Korean, UiText::ValidationFixHint) => "내보내기 전 오류를 먼저 수정하세요"@,
        (AppLocale::Korean, UiText::OpenCodeGuideTitle) => "OpenCode 가이드"@,
        (AppLocale::Korean, UiText::FlowTitle) => "권장 동작 순서"@,
        (AppLocale::Korean, UiText::FlowStep1) => "1. 명령어에 사용되는 MCP 실행 파일/런타임을 먼저 설치하세요."@,
        (AppLocale::Korean, UiText::FlowStep2) => "2. OpenCode 외부에서 명령이 정상 동작하는지 먼저 확인하세요."@,
        (AppLocale::Korean, UiText::FlowStep3) => "3. 생성된 JSON을 복사해 OpenCode 설정에 병합하세요."@,
        (AppLocale::Korean, UiText::FlowStep4) => "4. OpenCode를 다시 로드하고 서버 등록을 확인하세요."@,
        (AppLocale::Korean, UiText::FlowScopePrefix) => "권장 범위"@,
        (AppLocale::Korean, UiText::BtnInstallServerCard) => "OpenCode에 설치"@,
        (AppLocale::Korean, UiText::BtnUninstallServerCard) => "OpenCode에서 제거"@,
        (AppLocale::Korean, UiText::NotesHint) => "설치, 인증, 기대 동작에 대한 메모를 입력하세요"@,
        (AppLocale::Korean, UiText::ProfileNameHint) => "프로필 이름"@,
        (AppLocale::Korean, UiText::CopyJsonAgain) => "JSON 다시 복사"@,
        (AppLocale::Korean, UiText::ConfigManagerTitle) => "OpenCode 설정 관리자"@,
        (AppLocale::Korean, UiText::ReloadInstalledStateButton) => "설치 상태 새로고침"@,
        (AppLocale::Korean, UiText::ManagedPathLabel) => "관리 대상 경로"@,
        (AppLocale::Korean, UiText::NoServerInConfig) => "설정 파일에서 MCP 서버를 찾지 못했습니다."@,
        (AppLocale::Korean, UiText::InstalledServerIds) => "현재 설치된 서버 ID:"@,
        (AppLocale::Korean, UiText::StatusReady) => "준비됨"@,
        (AppLocale::Korean, UiText::StatusLoadedConfigState) => "OpenCode 설정 상태를 읽어왔습니다"@,
        (AppLocale::Korean, UiText::StatusConfigReadFailed) => "설정 읽기 실패"@,
        (AppLocale::Korean, UiText::StatusInstallFailed) => "설치 실패"@,
        (AppLocale::Korean, UiText::StatusUninstallFailed) => "삭제 실패"@,
        (AppLocale::Korean, UiText::StatusEmptyIdFailed) => "설치/삭제 실패: 서버 ID가 비어 있습니다."@,
        (AppLocale::Korean, UiText::StatusOperationFailed) => "작업 실패"@,
        (AppLocale::Korean, UiText::StatusSaveFailed) => "저장 실패"@,
        (AppLocale::Korean, UiText::StatusSaved) => "저장됨"@,
        (AppLocale::Korean, UiText::StatusCopiedJson) => "JSON이 클립보드에 복사됨"@,
        (AppLocale::Korean, UiText::StatusCopiedSetup) => "설치 안내가 클립보드에 복사됨"@,
        (AppLocale::Korean, UiText::StatusProfileCreated) => "새 프로필이 생성됨"@,
        (AppLocale::Korean, UiText::StatusProfileDuplicated) => "프로필이 복제됨"@,
        (AppLocale::Korean, UiText::StatusProfileDeleteBlocked) => "최소 하나의 프로필은 남겨야 합니다"@,
        (AppLocale::Korean, UiText::StatusProfileDeleted) => "프로필이 삭제됨"@,
        (AppLocale::Korean, UiText::StatusServerRemoved) => "서버가 삭제됨"@,
        (AppLocale::Korean, UiText::StatusServerAdded) => "서버가 추가됨"@,
        (AppLocale::Korean, UiText::StatusLanguageChanged) => "언어가 변경됨"@,
        (AppLocale::Korean, UiText::StatusUnsaved) => "저장되지 않음"@,
    }
}

impl AppLocale {
    /// The text shown for `key` in this locale.
    pub fn t(self, key: UiText) -> (r: &'static str)
        ensures
            r@ == ui_text(self, key),
    {
        match (self, key) {
            (AppLocale::English, UiText::AppTitle) => "OpenMCP",
            (AppLocale::English, UiText::AppSubtitle) => "Build OpenCode MCP configs without hand-editing JSON.",
            (AppLocale::English, UiText::BtnSave) => "Save",
            (AppLocale::English, UiText::BtnUninstallEnabled) => "Uninstall Enabled",
            (AppLocale::English, UiText::BtnInstallEnabled) => "Install Enabled",
            (AppLocale::English, UiText::BtnLoadConfig) => "Load Config",
            (AppLocale::English, UiText::BtnCopySetup) => "Copy Setup",
            (AppLocale::English, UiText::BtnCopyJson) => "Copy JSON",
            (AppLocale::English, UiText::Profiles) => "Profiles",
            (AppLocale::English, UiText::ProfilesHint) => "Separate project-specific MCP wiring from global setups.",
            (AppLocale::English, UiText::BtnNew) => "New",
            (AppLocale::English, UiText::BtnDuplicate) => "Duplicate",
            (AppLocale::English, UiText::BtnDelete) => "Delete",
            (AppLocale::English, UiText::ProfileSection) => "Profile",
            (AppLocale::English, UiText::ScopeLabel) => "Scope",
            (AppLocale::English, UiText::ScopeHintLabel) => "Project or global scope",
            (AppLocale::English, UiText::OpenCodePathLabel) => "OpenCode target path hint",
            (AppLocale::English, UiText::OpenCodePathHint) => "Where you expect to paste or merge the config",
            (AppLocale::English, UiText::OperatorNoteLabel) => "Operator note",
            (AppLocale::English, UiText::OperatorNoteHint) => "Explain where or how this JSON should be applied",
            (AppLocale::English, UiText::McpServersSection) => "MCP Servers",
            (AppLocale::English, UiText::LanguageSection) => "Language",
            (AppLocale::English, UiText::LanguageValueLabel) => "Select language",
            (AppLocale::English, UiText::ServerCountLabel) => "Server",
            (AppLocale::English, UiText::TransportLabel) => "Transport",
            (AppLocale::English, UiText::TransportStdioLabel) => "stdio",
            (AppLocale::English, UiText::TransportSseLabel) => "sse",
            (AppLocale::English, UiText::TransportHttpLabel) => "http",
            (AppLocale::English, UiText::ServerCardInstalled) => "Installed",
            (AppLocale::English, UiText::ServerCardNotInstalled) => "Not installed",
            (AppLocale::English, UiText::ServerIdLabel) => "Server id",
            (AppLocale::English, UiText::CommandLabel) => "Command",
            (AppLocale::English, UiText::ArgsLabel) => "Arguments",
            (AppLocale::English, UiText::WorkingDirectoryLabel) => "Working directory",
            (AppLocale::English, UiText::EndpointLabel) => "Endpoint URL",
            (AppLocale::English, UiText::EnvVarsLabel) => "Environment variables",
            (AppLocale::English, UiText::AddEnvVarButton) => "Add Env Var",
            (AppLocale::English, UiText::NotesLabel) => "Notes",
            (AppLocale::English, UiText::RemoveServerButton) => "Remove",
            (AppLocale::English, UiText::AddServerButton) => "Add MCP Server",
            (AppLocale::English, UiText::GeneratedConfigTitle) => "Generated Config",
            (AppLocale::English, UiText::GeneratedConfigHint) => "Paste this `mcpServers` block into the place OpenCode expects.",
            (AppLocale::English, UiText::ValidationPassed) => "Validation passed",
            (AppLocale::English, UiText::ValidationFixHint) => "Fix these issues before exporting",
            (AppLocale::English, UiText::OpenCodeGuideTitle) => "OpenCode Guide",
            (AppLocale::English, UiText::FlowTitle) => "Suggested flow",
            (AppLocale::English, UiText::FlowStep1) => "1. Install the MCP server runtime or binary used by the command.",
            (AppLocale::English, UiText::FlowStep2) => "2. Verify the command runs outside OpenCode first.",
            (AppLocale::English, UiText::FlowStep3) => "3. Copy the generated JSON and merge it into your OpenCode config.",
            (AppLocale::English, UiText::FlowStep4) => "4. Reload OpenCode and confirm the server appears.",
            (AppLocale::English, UiText::FlowScopePrefix) => "Recommended scope",
            (AppLocale::English, UiText::BtnInstallServerCard) => "Install to OpenCode",
            (AppLocale::English, UiText::BtnUninstallServerCard) => "Uninstall from OpenCode",
            (AppLocale::English, UiText::NotesHint) => "Any reminder about installation, auth, or expected capabilities",
            (AppLocale::English, UiText::ProfileNameHint) => "Profile name",
            (AppLocale::English, UiText::CopyJsonAgain) => "Copy JSON Again",
            (AppLocale::English, UiText::ConfigManagerTitle) => "OpenCode Config Manager",
            (AppLocale::English, UiText::ReloadInstalledStateButton) => "Reload Installed State",
            (AppLocale::English, UiText::ManagedPathLabel) => "Managed path",
            (AppLocale::English, UiText::NoServerInConfig) => "No MCP servers found in config.",
            (AppLocale::English, UiText::InstalledServerIds) => "Current installed server ids:",
            (AppLocale::English, UiText::StatusReady) => "Ready",
            (AppLocale::English, UiText::StatusLoadedConfigState) => "Loaded OpenCode config state",
            (AppLocale::English, UiText::StatusConfigReadFailed) => "Config read failed",
            (AppLocale::English, UiText::StatusInstallFailed) => "Install failed",
            (AppLocale::English, UiText::StatusUninstallFailed) => "Uninstall failed",
            (AppLocale::English, UiText::StatusEmptyIdFailed) => "Install/Uninstall failed: server id is empty.",
            (AppLocale::English, UiText::StatusOperationFailed) => "Operation failed",
            (AppLocale::English, UiText::StatusSaveFailed) => "Save failed",
            (AppLocale::English, UiText::StatusSaved) => "Saved",
            (AppLocale::English, UiText::StatusCopiedJson) => "Generated JSON copied to clipboard",
            (AppLocale::English, UiText::StatusCopiedSetup) => "Setup instructions copied to clipboard",
            (AppLocale::English, UiText::StatusProfileCreated) => "New profile created",
            (AppLocale::English, UiText::StatusProfileDuplicated) => "Profile duplicated",
            (AppLocale::English, UiText::StatusProfileDeleteBlocked) => "At least one profile must remain",
            (AppLocale::English, UiText::StatusProfileDeleted) => "Profile deleted",
            (AppLocale::English, UiText::StatusServerRemoved) => "Server removed",
            (AppLocale::English, UiText::StatusServerAdded) => "Server added",
            (AppLocale::English, UiText::StatusLanguageChanged) => "Language changed",
            (AppLocale::English, UiText::StatusUnsaved) => "Unsaved changes",
            (AppLocale::Korean, UiText::AppTitle) => "OpenMCP",
            (AppLocale::Korean, UiText::AppSubtitle) => "OpenCode MCP 설정을 JSON을 직접 편집하지 않고 생성하세요.",
            (AppLocale::Korean, UiText::BtnSave) => "저장",
            (AppLocale::Korean, UiText::BtnUninstallEnabled) => "활성 서버 제거",
            (AppLocale::Korean, UiText::BtnInstallEnabled) => "활성 서버 설치",
            (AppLocale::Korean, UiText::BtnLoadConfig) => "설정 다시 불러오기",
            (AppLocale::Korean, UiText::BtnCopySetup) => "설치 안내 복사",
            (AppLocale::Korean, UiText::BtnCopyJson) => "JSON 복사",
            (AppLocale::Korean, UiText::Profiles) => "프로필",
            (AppLocale::Korean, UiText::ProfilesHint) => "프로젝트별 MCP 설정과 전역 설정을 분리해서 관리할 수 있습니다.",
            (AppLocale::Korean, UiText::BtnNew) => "새로 만들기",
            (AppLocale::Korean, UiText::BtnDuplicate) => "복제",
            (AppLocale::Korean, UiText::BtnDelete) => "삭제",
            (AppLocale::Korean, UiText::ProfileSection) => "프로필",
            (AppLocale::Korean, UiText::ScopeLabel) => "적용 범위",
            (AppLocale::Korean, UiText::ScopeHintLabel) => "프로젝트 또는 전역",
            (AppLocale::Korean, UiText::OpenCodePathLabel) => "OpenCode 경로 힌트",
            (AppLocale::Korean, UiText::OpenCodePathHint) => "설정을 붙여넣거나 병합할 경로를 입력하세요",
            (AppLocale::Korean, UiText::OperatorNoteLabel) => "운영 메모",
            (AppLocale::Korean, UiText::OperatorNoteHint) => "이 JSON 적용 위치/방식을 설명하세요",
            (AppLocale::Korean, UiText::McpServersSection) => "MCP 서버",
            (AppLocale::Korean, UiText::LanguageSection) => "언어",
            (AppLocale::Korean, UiText::LanguageValueLabel) => "언어 선택",
            (AppLocale::Korean, UiText::ServerCountLabel) => "서버",
            (AppLocale::Korean, UiText::TransportLabel) => "전송 방식",
            (AppLocale::Korean, UiText::TransportStdioLabel) => "stdio",
            (AppLocale::Korean, UiText::TransportSseLabel) => "sse",
            (AppLocale::Korean, UiText::TransportHttpLabel) => "http",
            (AppLocale::Korean, UiText::ServerCardInstalled) => "설치됨",
            (AppLocale::Korean, UiText::ServerCardNotInstalled) => "미설치",
            (AppLocale::Korean, UiText::ServerIdLabel) => "서버 ID",
            (AppLocale::Korean, UiText::CommandLabel) => "실행 명령",
            (AppLocale::Korean, UiText::ArgsLabel) => "인자",
            (AppLocale::Korean, UiText::WorkingDirectoryLabel) => "작업 디렉터리",
            (AppLocale::Korean, UiText::EndpointLabel) => "엔드포인트 URL",
            (AppLocale::Korean, UiText::EnvVarsLabel) => "환경 변수",
            (AppLocale::Korean, UiText::AddEnvVarButton) => "환경 변수 추가",
            (AppLocale::Korean, UiText::NotesLabel) => "메모",
            (AppLocale::Korean, UiText::RemoveServerButton) => "제거",
            (AppLocale::Korean, UiText::AddServerButton) => "MCP 서버 추가",
            (AppLocale::Korean, UiText::GeneratedConfigTitle) => "생성된 설정",
            (AppLocale::Korean, UiText::GeneratedConfigHint) => "OpenCode가 기대하는 위치에 `mcpServers` 블록을 붙여 넣으세요.",
            (AppLocale::Korean, UiText::ValidationPassed) => "유효성 검사 통과",
            (AppLocale::Korean, UiText::ValidationFixHint) => "내보내기 전 오류를 먼저 수정하세요",
            (AppLocale::Korean, UiText::OpenCodeGuideTitle) => "OpenCode 가이드",
            (AppLocale::Korean, UiText::FlowTitle) => "권장 동작 순서",
            (AppLocale::Korean, UiText::FlowStep1) => "1. 명령어에 사용되는 MCP 실행 파일/런타임을 먼저 설치하세요.",
            (AppLocale::Korean, UiText::FlowStep2) => "2. OpenCode 외부에서 명령이 정상 동작하는지 먼저 확인하세요.",
            (AppLocale::Korean, UiText::FlowStep3) => "3. 생성된 JSON을 복사해 OpenCode 설정에 병합하세요.",
            (AppLocale::Korean, UiText::FlowStep4) => "4. OpenCode를 다시 로드하고 서버 등록을 확인하세요.",
            (AppLocale::Korean, UiText::FlowScopePrefix) => "권장 범위",
            (AppLocale::Korean, UiText::BtnInstallServerCard) => "OpenCode에 설치",
            (AppLocale::Korean, UiText::BtnUninstallServerCard) => "OpenCode에서 제거",
            (AppLocale::Korean, UiText::NotesHint) => "설치, 인증, 기대 동작에 대한 메모를 입력하세요",
            (AppLocale::Korean, UiText::ProfileNameHint) => "프로필 이름",
            (AppLocale::Korean, UiText::CopyJsonAgain) => "JSON 다시 복사",
            (AppLocale::Korean, UiText::ConfigManagerTitle) => "OpenCode 설정 관리자",
            (AppLocale::Korean, UiText::ReloadInstalledStateButton) => "설치 상태 새로고침",
            (AppLocale::Korean, UiText::ManagedPathLabel) => "관리 대상 경로",
            (AppLocale::Korean, UiText::NoServerInConfig) => "설정 파일에서 MCP 서버를 찾지 못했습니다.",
            (AppLocale::Korean, UiText::InstalledServerIds) => "현재 설치된 서버 ID:",
            (AppLocale::Korean, UiText::StatusReady) => "준비됨",
            (AppLocale::Korean, UiText::StatusLoadedConfigState) => "OpenCode 설정 상태를 읽어왔습니다",
            (AppLocale::Korean, UiText::StatusConfigReadFailed) => "설정 읽기 실패",
            (AppLocale::Korean, UiText::StatusInstallFailed) => "설치 실패",
            (AppLocale::Korean, UiText::StatusUninstallFailed) => "삭제 실패",
            (AppLocale::Korean, UiText::StatusEmptyIdFailed) => "설치/삭제 실패: 서버 ID가 비어 있습니다.",
            (AppLocale::Korean, UiText::StatusOperationFailed) => "작업 실패",
            (AppLocale::Korean, UiText::StatusSaveFailed) => "저장 실패",
            (AppLocale::Korean, UiText::StatusSaved) => "저장됨",
            (AppLocale::Korean, UiText::StatusCopiedJson) => "JSON이 클립보드에 복사됨",
            (AppLocale::Korean, UiText::StatusCopiedSetup) => "설치 안내가 클립보드에 복사됨",
            (AppLocale::Korean, UiText::StatusProfileCreated) => "새 프로필이 생성됨",
            (AppLocale::Korean, UiText::StatusProfileDuplicated) => "프로필이 복제됨",
            (AppLocale::Korean, UiText::StatusProfileDeleteBlocked) => "최소 하나의 프로필은 남겨야 합니다",
            (AppLocale::Korean, UiText::StatusProfileDeleted) => "프로필이 삭제됨",
            (AppLocale::Korean, UiText::StatusServerRemoved) => "서버가 삭제됨",
            (AppLocale::Korean, UiText::StatusServerAdded) => "서버가 추가됨",
            (AppLocale::Korean, UiText::StatusLanguageChanged) => "언어가 변경됨",
            (AppLocale::Korean, UiText::StatusUnsaved) => "저장되지 않음",
        }
    }
}

} // verus!
