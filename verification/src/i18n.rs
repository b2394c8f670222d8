//! User-facing text in English and Japanese: the static catalog, counted and
//! parameterized messages, and labels for the car-specific setup keys that
//! iRacing publishes.
use vstd::prelude::*;
use crate::text::{
    ascii_lower, ascii_lowercase_chars, chars_of, chars_range, concat_str, contains_seq, decimal,
    ends_with, find_seq, has_prefix, has_suffix, i32_to_string, join, join2, join3, join_strings,
    replace_all, replace_str, signed_decimal, split_words, starts_with, str_eq, str_trim,
    string_from_chars, string_views, to_owned_string, trim, u64_to_string, usize_to_string, words,
};

verus! {

broadcast use vstd::string::group_string_axioms;

/// A language of the user interface.
#[derive(Debug, Clone, Copy, PartialEq, Eq, Structural)]
pub enum Locale {
    English,
    Japanese,
}

impl Default for Locale {
    fn default() -> (r: Self)
        ensures
            r == Locale::English,
    {
        Locale::English
    }
}

impl Locale {
    /// Every locale.
    pub fn all() -> (r: Vec<Locale>)
        ensures
            r@ == seq![Locale::English, Locale::Japanese],
    {
        let r = vec![Locale::English, Locale::Japanese];
        assert(r@ =~= seq![Locale::English, Locale::Japanese]);
        r
    }

    pub open spec fn spec_id(self) -> Seq<char> {
        match self {
            Locale::English => "english"@,
            Locale::Japanese => "japanese"@,
        }
    }

    /// The stable identifier of the locale.
    pub fn id(self) -> (r: &'static str)
        ensures
            r@ == self.spec_id(),
    {
        match self {
            Locale::English => "english",
            Locale::Japanese => "japanese",
        }
    }

    pub open spec fn spec_display_name(self) -> Seq<char> {
        match self {
            Locale::English => "English"@,
            Locale::Japanese => "日本語"@,
        }
    }

    /// The name of the locale in its own language.
    pub fn display_name(self) -> (r: &'static str)
        ensures
            r@ == self.spec_display_name(),
    {
        match self {
            Locale::English => "English",
            Locale::Japanese => "日本語",
        }
    }
}

/// A key of the static text catalog.
#[derive(Debug, Clone, Copy, PartialEq, Eq, Structural)]
pub enum Text {
    Telemetry,
    CarSetup,
    Settings,
    Language,
    Diagnostics,
    ShowDiagnostics,
    DiagnosticsDescription,
    Runtime,
    ApplicationPreferences,
    ComponentPreview,
    ComponentPreviewDescription,
    OpenDialogPreview,
    About,
    DesktopTelemetryInterface,
    Cancel,
    Confirm,
    DialogPreview,
    DialogPreviewDescription,
    CloseDialog,
    DialogPreviewBody,
    DialogPreviewInstructions,
    DialogPreviewNavigation,
    IbtRecording,
    UnavailableOnThisPlatform,
    Disconnected,
    Connecting,
    Connected,
    Waiting,
    Live,
    Offline,
    Unavailable,
    Connect,
    Disconnect,
    OpenIbt,
    Selecting,
    Loading,
    ClearReference,
    NoReferenceLoaded,
    ReferenceIbtUnavailable,
    ReferenceSetup,
    ReferenceSetupUnavailable,
    MainIbtRequired,
    TrackMismatch,
    CarMismatch,
    WaitingForTrackData,
    Session,
    Reference,
    MyLaps,
    Charts,
    SessionLaps,
    Timing,
    Laps,
    Stint,
    Stints,
    Sectors,
    Best,
    Average,
    Complete,
    NoSectorData,
    NoStintData,
    Layout,
    ResetLayout,
    Conditions,
    Car,
    Class,
    Time,
    Date,
    Length,
    Type,
    Source,
    Weather,
    AirTemperature,
    TrackTemperature,
    Humidity,
    Wind,
    LapPosition,
    Speed,
    Pedal,
    Throttle,
    Brake,
    BrakePressure,
    AbsActivity,
    AbsActive,
    Steering,
    SteeringAngle,
    SteeringTorque,
    EngineRpm,
    Rpm,
    Gear,
    VehicleDynamics,
    Dynamics,
    LateralG,
    LongitudinalG,
    YawRate,
    WheelSlip,
    TyreTemperature,
    SuspensionTravel,
    FuelUsed,
    Delta,
    Fuel,
    CurrentLap,
    LastLap,
    Position,
    Travel,
    Slip,
    NotAvailable,
    Cursor,
    ReferenceCursor,
    Vehicle,
    Inputs,
    Tyres,
    Wheels,
    SingleColumn,
    TwoColumns,
    Front,
    Rear,
    FrontLeft,
    FrontRight,
    RearLeft,
    RearRight,
    CarcassPressure,
    ReferenceSpeed,
    ReferenceThrottle,
    ReferenceBrake,
    ReferenceSteering,
    ReferenceSteeringTorque,
    ReferenceRpm,
    ReferenceGear,
    ReferenceLateralG,
    ReferenceLongitudinalG,
    ReferenceYawRate,
    ReferenceFuelUsed,
    ReferenceFrontLeft,
    ReferenceFrontRight,
    ReferenceRearLeft,
    ReferenceRearRight,
    LapDistance,
    Active,
    Off,
    Unlimited,
    Setup,
    SetupData,
    WaitingForCarData,
    SetupUnavailable,
    SetupSectionUnavailable,
    VehicleSpecifications,
    Version,
    Powertrain,
    Transmission,
    ShiftLights,
    FuelSystem,
    TyreCompounds,
    Regulations,
    SetupRules,
    FixedSetup,
    OpenSetup,
    FuelAllowance,
    WeightPenalty,
    PowerAdjustment,
    DryTyreSetLimit,
    Electric,
    Combustion,
    Access,
    ReadOnly,
    LoadType,
    CarPath,
    Revision,
    Modified,
    Saved,
    TechPassed,
    TechFailed,
    CornerComparison,
    Setting,
    Current,
    Difference,
    Changed,
    Unchanged,
    CurrentOnly,
    ReferenceOnly,
    ChangedOnly,
    NoSetupDifferences,
    NoSetupDifferencesDescription,
    CarSetupMismatch,
    NoSetupDataYet,
    NoSetupDataDescription,
    SetupUnavailableDescription,
    SetupCouldNotBeRead,
    SessionInfoInvalidYaml,
    NoSetupValues,
    NoSetupValuesDescription,
    Value,
    General,
    Yes,
    No,
    HideTooltips,
    ShowTooltips,
    HideSectors,
    ShowSectors,
    RestoreChart,
    MaximizeChart,
    RestoreCard,
    MaximizeCard,
    DragToReorder,
    Minimize,
    Maximize,
    Close,
    OpenChiaroscuro,
    Quit,
    OpenIRacingTelemetry,
    IRacingTelemetry,
    IRacingOnThisPc,
    LiveWindowsOnly,
    ConfigurationError,
    LiveSource,
    Connection,
    SamplesReceived,
    Records,
    TelemetryVariables,
    LiveSourceUnavailable,
    IbtSource,
    SessionInfoUpdate,
    TelemetryError,
    FailedToLoadDesktopSettings,
    FailedToSaveDesktopSettings,
    ConfigLocationUnavailable,
    ConfigPathHasNoParent,
    UnknownTrack,
}

/// The English text of `key`.
pub open spec fn english_text(key: Text) -> Seq<char> {
    match key {
        Text::Telemetry => "Telemetry"@,
        Text::CarSetup => "Car setup"@,
        Text::Settings => "Settings"@,
        Text::Language => "Language"@,
        Text::Diagnostics => "Diagnostics"@,
        Text::ShowDiagnostics => "Show diagnostics"@,
        Text::DiagnosticsDescription => "Expose live telemetry and recording details for troubleshooting."@,
        Text::Runtime => "Runtime"@,
        Text::ApplicationPreferences => "Application preferences and diagnostics"@,
        Text::ComponentPreview => "Component preview"@,
        Text::ComponentPreviewDescription => "Open the shared modal to verify its layout and dismissal behavior."@,
        Text::OpenDialogPreview => "Open dialog preview"@,
        Text::About => "About"@,
        Text::DesktopTelemetryInterface => "Desktop telemetry interface"@,
        Text::Cancel => "Cancel"@,
        Text::Confirm => "Confirm"@,
        Text::DialogPreview => "Dialog preview"@,
        Text::DialogPreviewDescription => "A live verification of the shared Chiaro dialog component."@,
        Text::CloseDialog => "Close dialog"@,
        Text::DialogPreviewBody => "The Settings view stays mounted behind this surface."@,
        Text::DialogPreviewInstructions => "Verify the close icon, Cancel button, Escape key, and backdrop click."@,
        Text::DialogPreviewNavigation => "Navigation and window controls should remain inactive while the dialog is open."@,
        Text::IbtRecording => "IBT recording"@,
        Text::UnavailableOnThisPlatform => "Unavailable on this platform"@,
        Text::Disconnected => "Disconnected"@,
        Text::Connecting => "Connecting"@,
        Text::Connected => "Connected"@,
        Text::Waiting => "Waiting"@,
        Text::Live => "Live"@,
        Text::Offline => "Offline"@,
        Text::Unavailable => "Unavailable"@,
        Text::Connect => "Connect"@,
        Text::Disconnect => "Disconnect"@,
        Text::OpenIbt => "Open IBT"@,
        Text::Selecting => "Selecting..."@,
        Text::Loading => "Loading..."@,
        Text::ClearReference => "Clear reference"@,
        Text::NoReferenceLoaded => "No reference loaded"@,
        Text::ReferenceIbtUnavailable => "Reference IBT unavailable"@,
        Text::ReferenceSetup => "Reference setup"@,
        Text::ReferenceSetupUnavailable => "The reference IBT does not contain setup data."@,
        Text::MainIbtRequired => "Main IBT required"@,
        Text::TrackMismatch => "Track mismatch"@,
        Text::CarMismatch => "Car mismatch"@,
        Text::WaitingForTrackData => "Waiting for track data"@,
        Text::Session => "Session"@,
        Text::Reference => "Reference"@,
        Text::MyLaps => "My laps"@,
        Text::Charts => "Charts"@,
        Text::SessionLaps => "Session laps"@,
        Text::Timing => "Timing"@,
        Text::Laps => "Laps"@,
        Text::Stint => "Stint"@,
        Text::Stints => "Stints"@,
        Text::Sectors => "Sectors"@,
        Text::Best => "Best"@,
        Text::Average => "Average"@,
        Text::Complete => "Complete"@,
        Text::NoSectorData => "No sector timing data"@,
        Text::NoStintData => "No stint data"@,
        Text::Layout => "Layout"@,
        Text::ResetLayout => "Reset layout"@,
        Text::Conditions => "CONDITIONS"@,
        Text::Car => "Car"@,
        Text::Class => "Class"@,
        Text::Time => "Time"@,
        Text::Date => "Date"@,
        Text::Length => "Length"@,
        Text::Type => "Type"@,
        Text::Source => "Source"@,
        Text::Weather => "Weather"@,
        Text::AirTemperature => "Air temp"@,
        Text::TrackTemperature => "Track temp"@,
        Text::Humidity => "Humidity"@,
        Text::Wind => "Wind"@,
        Text::LapPosition => "Lap position"@,
        Text::Speed => "Speed"@,
        Text::Pedal => "Pedal"@,
        Text::Throttle => "Throttle"@,
        Text::Brake => "Brake"@,
        Text::BrakePressure => "Brake pressure"@,
        Text::AbsActivity => "ABS activity"@,
        Text::AbsActive => "ABS active"@,
        Text::Steering => "Steering"@,
        Text::SteeringAngle => "Steering angle"@,
        Text::SteeringTorque => "Steering torque"@,
        Text::EngineRpm => "Engine RPM"@,
        Text::Rpm => "RPM"@,
        Text::Gear => "Gear"@,
        Text::VehicleDynamics => "Vehicle dynamics"@,
        Text::Dynamics => "Dynamics"@,
        Text::LateralG => "Lateral G"@,
        Text::LongitudinalG => "Longitudinal G"@,
        Text::YawRate => "Yaw rate"@,
        Text::WheelSlip => "Wheel slip"@,
        Text::TyreTemperature => "Tyre temperature"@,
        Text::SuspensionTravel => "Suspension travel"@,
        Text::FuelUsed => "Fuel used"@,
        Text::Delta => "Delta"@,
        Text::Fuel => "Fuel"@,
        Text::CurrentLap => "Current lap"@,
        Text::LastLap => "Last lap"@,
        Text::Position => "Position"@,
        Text::Travel => "Travel"@,
        Text::Slip => "slip"@,
        Text::NotAvailable => "N/A"@,
        Text::Cursor => "Cursor"@,
        Text::ReferenceCursor => "Reference cursor"@,
        Text::Vehicle => "Vehicle"@,
        Text::Inputs => "Inputs"@,
        Text::Tyres => "Tyres"@,
        Text::Wheels => "Wheels"@,
        Text::SingleColumn => "Single column"@,
        Text::TwoColumns => "Two columns"@,
        Text::Front => "Front"@,
        Text::Rear => "Rear"@,
        Text::FrontLeft => "Front left"@,
        Text::FrontRight => "Front right"@,
        Text::RearLeft => "Rear left"@,
        Text::RearRight => "Rear right"@,
        Text::CarcassPressure => "Carcass I / M / O · hot pressure"@,
        Text::ReferenceSpeed => "Reference speed"@,
        Text::ReferenceThrottle => "Reference throttle"@,
        Text::ReferenceBrake => "Reference brake"@,
        Text::ReferenceSteering => "Reference steering"@,
        Text::ReferenceSteeringTorque => "Reference steering torque"@,
        Text::ReferenceRpm => "Reference RPM"@,
        Text::ReferenceGear => "Reference gear"@,
        Text::ReferenceLateralG => "Reference lateral G"@,
        Text::ReferenceLongitudinalG => "Reference longitudinal G"@,
        Text::ReferenceYawRate => "Reference yaw rate"@,
        Text::ReferenceFuelUsed => "Reference fuel used"@,
        Text::ReferenceFrontLeft => "Reference front left"@,
        Text::ReferenceFrontRight => "Reference front right"@,
        Text::ReferenceRearLeft => "Reference rear left"@,
        Text::ReferenceRearRight => "Reference rear right"@,
        Text::LapDistance => "Lap distance"@,
        Text::Active => "Active"@,
        Text::Off => "Off"@,
        Text::Unlimited => "Unlimited"@,
        Text::Setup => "Setup"@,
        Text::SetupData => "Setup data"@,
        Text::WaitingForCarData => "Waiting for car data"@,
        Text::SetupUnavailable => "Setup unavailable"@,
        Text::SetupSectionUnavailable => "This setup section is no longer available."@,
        Text::VehicleSpecifications => "Vehicle specifications"@,
        Text::Version => "Version"@,
        Text::Powertrain => "Powertrain"@,
        Text::Transmission => "Transmission"@,
        Text::ShiftLights => "Shift lights"@,
        Text::FuelSystem => "Fuel system"@,
        Text::TyreCompounds => "Tyre compounds"@,
        Text::Regulations => "Regulations"@,
        Text::SetupRules => "Setup rules"@,
        Text::FixedSetup => "Fixed setup"@,
        Text::OpenSetup => "Open setup"@,
        Text::FuelAllowance => "Fuel allowance"@,
        Text::WeightPenalty => "Weight penalty"@,
        Text::PowerAdjustment => "Power adjustment"@,
        Text::DryTyreSetLimit => "Dry tyre set limit"@,
        Text::Electric => "Electric"@,
        Text::Combustion => "Combustion"@,
        Text::Access => "Access"@,
        Text::ReadOnly => "Read only"@,
        Text::LoadType => "Load type"@,
        Text::CarPath => "Car path"@,
        Text::Revision => "Revision"@,
        Text::Modified => "Modified"@,
        Text::Saved => "Saved"@,
        Text::TechPassed => "Tech passed"@,
        Text::TechFailed => "Tech failed"@,
        Text::CornerComparison => "Corner comparison"@,
        Text::Setting => "Setting"@,
        Text::Current => "Current"@,
        Text::Difference => "Difference"@,
        Text::Changed => "Changed"@,
        Text::Unchanged => "Unchanged"@,
        Text::CurrentOnly => "Current only"@,
        Text::ReferenceOnly => "Reference only"@,
        Text::ChangedOnly => "Changed values only"@,
        Text::NoSetupDifferences => "No setup differences"@,
        Text::NoSetupDifferencesDescription => "The visible values match the reference setup."@,
        Text::CarSetupMismatch => "The reference setup belongs to a different car."@,
        Text::NoSetupDataYet => "No setup data yet"@,
        Text::NoSetupDataDescription => "Connect to a live telemetry source or load an IBT recording to inspect the player car setup."@,
        Text::SetupUnavailableDescription => "This session does not publish CarSetup data. It can be absent while spectating, replaying, or changing sessions."@,
        Text::SetupCouldNotBeRead => "Setup could not be read"@,
        Text::SessionInfoInvalidYaml => "The session information is not valid YAML"@,
        Text::NoSetupValues => "No setup values"@,
        Text::NoSetupValuesDescription => "iRacing published a CarSetup section, but it contains no displayable values."@,
        Text::Value => "Value"@,
        Text::General => "General"@,
        Text::Yes => "Yes"@,
        Text::No => "No"@,
        Text::HideTooltips => "Hide tooltips"@,
        Text::ShowTooltips => "Show tooltips"@,
        Text::HideSectors => "Hide sectors"@,
        Text::ShowSectors => "Show sectors"@,
        Text::RestoreChart => "Restore chart"@,
        Text::MaximizeChart => "Maximize chart"@,
        Text::RestoreCard => "Restore card"@,
        Text::MaximizeCard => "Maximize card"@,
        Text::DragToReorder => "Drag to reorder"@,
        Text::Minimize => "Minimize"@,
        Text::Maximize => "Maximize"@,
        Text::Close => "Close"@,
        Text::OpenChiaroscuro => "Open Chiaroscuro"@,
        Text::Quit => "Quit"@,
        Text::OpenIRacingTelemetry => "Open iRacing telemetry"@,
        Text::IRacingTelemetry => "iRacing telemetry"@,
        Text::IRacingOnThisPc => "iRacing on this PC"@,
        Text::LiveWindowsOnly => "Live iRacing telemetry is available only on Windows; IBT recordings remain available."@,
        Text::ConfigurationError => "Configuration error"@,
        Text::LiveSource => "Live source"@,
        Text::Connection => "Connection"@,
        Text::SamplesReceived => "Samples received"@,
        Text::Records => "Records"@,
        Text::TelemetryVariables => "Telemetry variables"@,
        Text::LiveSourceUnavailable => "Live source unavailable"@,
        Text::IbtSource => "IBT source"@,
        Text::SessionInfoUpdate => "Session info update"@,
        Text::TelemetryError => "Telemetry error"@,
        Text::FailedToLoadDesktopSettings => "Failed to load desktop settings"@,
        Text::FailedToSaveDesktopSettings => "Failed to save desktop settings"@,
        Text::ConfigLocationUnavailable => "Neither XDG_CONFIG_HOME, APPDATA nor HOME is available"@,
        Text::ConfigPathHasNoParent => "Desktop settings path has no parent directory"@,
        Text::UnknownTrack => "Unknown track"@,
    }
}

/// The Japanese text of `key`.
pub open spec fn japanese_text(key: Text) -> Seq<char> {
    match key {
        Text::Telemetry => "テレメトリー"@,
        Text::CarSetup => "車両セットアップ"@,
        Text::Settings => "設定"@,
        Text::Language => "言語"@,
        Text::Diagnostics => "診断"@,
        Text::ShowDiagnostics => "診断情報を表示"@,
        Text::DiagnosticsDescription => "トラブルシューティング用にライブテレメトリーと記録の詳細を表示します。"@,
        Text::Runtime => "実行状態"@,
        Text::ApplicationPreferences => "アプリケーション設定と診断情報"@,
        Text::ComponentPreview => "コンポーネントプレビュー"@,
        Text::ComponentPreviewDescription => "共通モーダルのレイアウトと閉じる操作を確認します。"@,
        Text::OpenDialogPreview => "ダイアログプレビューを開く"@,
        Text::About => "このアプリについて"@,
        Text::DesktopTelemetryInterface => "デスクトップテレメトリーインターフェース"@,
        Text::Cancel => "キャンセル"@,
        Text::Confirm => "確認"@,
        Text::DialogPreview => "ダイアログプレビュー"@,
        Text::DialogPreviewDescription => "共通の Chiaro ダイアログコンポーネントをライブで確認できます。"@,
        Text::CloseDialog => "ダイアログを閉じる"@,
        Text::DialogPreviewBody => "この画面の背後では設定ビューが表示されたままです。"@,
        Text::DialogPreviewInstructions => "閉じるアイコン、キャンセル、Escape キー、背景クリックを確認してください。"@,
        Text::DialogPreviewNavigation => "ダイアログ表示中はナビゲーションとウィンドウ操作は無効になります。"@,
        Text::IbtRecording => "IBT 記録"@,
        Text::UnavailableOnThisPlatform => "このプラットフォームでは利用できません"@,
        Text::Disconnected => "未接続"@,
        Text::Connecting => "接続中"@,
        Text::Connected => "接続済み"@,
        Text::Waiting => "待機中"@,
        Text::Live => "ライブ"@,
        Text::Offline => "オフライン"@,
        Text::Unavailable => "利用不可"@,
        Text::Connect => "接続"@,
        Text::Disconnect => "切断"@,
        Text::OpenIbt => "IBT を開く"@,
        Text::Selecting => "選択中..."@,
        Text::Loading => "読み込み中..."@,
        Text::ClearReference => "参照データを消去"@,
        Text::NoReferenceLoaded => "参照データが読み込まれていません"@,
        Text::ReferenceIbtUnavailable => "参照 IBT を利用できません"@,
        Text::ReferenceSetup => "参照セットアップ"@,
        Text::ReferenceSetupUnavailable => "参照 IBT にセットアップデータがありません。"@,
        Text::MainIbtRequired => "メイン IBT が必要です"@,
        Text::TrackMismatch => "トラックが一致しません"@,
        Text::CarMismatch => "車両が一致しません"@,
        Text::WaitingForTrackData => "トラックデータを待機しています"@,
        Text::Session => "セッション"@,
        Text::Reference => "参照"@,
        Text::MyLaps => "マイラップ"@,
        Text::Charts => "チャート"@,
        Text::SessionLaps => "セッションラップ"@,
        Text::Timing => "タイミング"@,
        Text::Laps => "ラップ"@,
        Text::Stint => "スティント"@,
        Text::Stints => "スティント"@,
        Text::Sectors => "セクター"@,
        Text::Best => "ベスト"@,
        Text::Average => "平均"@,
        Text::Complete => "完了"@,
        Text::NoSectorData => "セクタータイムがありません"@,
        Text::NoStintData => "スティントデータがありません"@,
        Text::Layout => "レイアウト"@,
        Text::ResetLayout => "レイアウトをリセット"@,
        Text::Conditions => "コンディション"@,
        Text::Car => "車両"@,
        Text::Class => "クラス"@,
        Text::Time => "時間"@,
        Text::Date => "日付"@,
        Text::Length => "全長"@,
        Text::Type => "種類"@,
        Text::Source => "ソース"@,
        Text::Weather => "天候"@,
        Text::AirTemperature => "気温"@,
        Text::TrackTemperature => "路面温度"@,
        Text::Humidity => "湿度"@,
        Text::Wind => "風"@,
        Text::LapPosition => "ラップ位置"@,
        Text::Speed => "速度"@,
        Text::Pedal => "ペダル"@,
        Text::Throttle => "スロットル"@,
        Text::Brake => "ブレーキ"@,
        Text::BrakePressure => "ブレーキ圧"@,
        Text::AbsActivity => "ABS 作動"@,
        Text::AbsActive => "ABS 作動中"@,
        Text::Steering => "ステアリング"@,
        Text::SteeringAngle => "ステアリング角"@,
        Text::SteeringTorque => "ステアリングトルク"@,
        Text::EngineRpm => "エンジン回転数"@,
        Text::Rpm => "RPM"@,
        Text::Gear => "ギア"@,
        Text::VehicleDynamics => "車両ダイナミクス"@,
        Text::Dynamics => "ダイナミクス"@,
        Text::LateralG => "横 G"@,
        Text::LongitudinalG => "縦 G"@,
        Text::YawRate => "ヨーレート"@,
        Text::WheelSlip => "ホイールスリップ"@,
        Text::TyreTemperature => "タイヤ温度"@,
        Text::SuspensionTravel => "サスペンション"@,
        Text::FuelUsed => "燃料消費"@,
        Text::Delta => "デルタ"@,
        Text::Fuel => "燃料"@,
        Text::CurrentLap => "現在のラップ"@,
        Text::LastLap => "前回のラップ"@,
        Text::Position => "順位"@,
        Text::Travel => "ストローク"@,
        Text::Slip => "スリップ"@,
        Text::NotAvailable => "該当なし"@,
        Text::Cursor => "カーソル"@,
        Text::ReferenceCursor => "参照カーソル"@,
        Text::Vehicle => "車両"@,
        Text::Inputs => "操作入力"@,
        Text::Tyres => "タイヤ"@,
        Text::Wheels => "ホイール"@,
        Text::SingleColumn => "1 列"@,
        Text::TwoColumns => "2 列"@,
        Text::Front => "フロント"@,
        Text::Rear => "リア"@,
        Text::FrontLeft => "左フロント"@,
        Text::FrontRight => "右フロント"@,
        Text::RearLeft => "左リア"@,
        Text::RearRight => "右リア"@,
        Text::CarcassPressure => "カーカス 内側 / 中央 / 外側・温間空気圧"@,
        Text::ReferenceSpeed => "参照速度"@,
        Text::ReferenceThrottle => "参照スロットル"@,
        Text::ReferenceBrake => "参照ブレーキ"@,
        Text::ReferenceSteering => "参照ステアリング"@,
        Text::ReferenceSteeringTorque => "参照ステアリングトルク"@,
        Text::ReferenceRpm => "参照 RPM"@,
        Text::ReferenceGear => "参照ギア"@,
        Text::ReferenceLateralG => "参照横 G"@,
        Text::ReferenceLongitudinalG => "参照縦 G"@,
        Text::ReferenceYawRate => "参照ヨーレート"@,
        Text::ReferenceFuelUsed => "参照燃料消費"@,
        Text::ReferenceFrontLeft => "参照・左フロント"@,
        Text::ReferenceFrontRight => "参照・右フロント"@,
        Text::ReferenceRearLeft => "参照・左リア"@,
        Text::ReferenceRearRight => "参照・右リア"@,
        Text::LapDistance => "ラップ距離"@,
        Text::Active => "作動"@,
        Text::Off => "オフ"@,
        Text::Unlimited => "無制限"@,
        Text::Setup => "セットアップ"@,
        Text::SetupData => "セットアップデータ"@,
        Text::WaitingForCarData => "車両データを待機しています"@,
        Text::SetupUnavailable => "セットアップを利用できません"@,
        Text::SetupSectionUnavailable => "このセットアップ項目は現在利用できません。"@,
        Text::VehicleSpecifications => "車両仕様"@,
        Text::Version => "バージョン"@,
        Text::Powertrain => "パワートレイン"@,
        Text::Transmission => "トランスミッション"@,
        Text::ShiftLights => "シフトライト"@,
        Text::FuelSystem => "燃料システム"@,
        Text::TyreCompounds => "タイヤコンパウンド"@,
        Text::Regulations => "レギュレーション"@,
        Text::SetupRules => "セットアップ規則"@,
        Text::FixedSetup => "固定セットアップ"@,
        Text::OpenSetup => "オープンセットアップ"@,
        Text::FuelAllowance => "燃料使用制限"@,
        Text::WeightPenalty => "重量ペナルティ"@,
        Text::PowerAdjustment => "出力調整"@,
        Text::DryTyreSetLimit => "ドライタイヤセット上限"@,
        Text::Electric => "電動"@,
        Text::Combustion => "内燃機関"@,
        Text::Access => "アクセス"@,
        Text::ReadOnly => "読み取り専用"@,
        Text::LoadType => "読み込み形式"@,
        Text::CarPath => "車両パス"@,
        Text::Revision => "リビジョン"@,
        Text::Modified => "変更済み"@,
        Text::Saved => "保存済み"@,
        Text::TechPassed => "車検合格"@,
        Text::TechFailed => "車検不合格"@,
        Text::CornerComparison => "コーナー比較"@,
        Text::Setting => "設定項目"@,
        Text::Current => "現在"@,
        Text::Difference => "差分"@,
        Text::Changed => "変更あり"@,
        Text::Unchanged => "変更なし"@,
        Text::CurrentOnly => "現在側のみ"@,
        Text::ReferenceOnly => "参照側のみ"@,
        Text::ChangedOnly => "変更項目のみ"@,
        Text::NoSetupDifferences => "セットアップの差分はありません"@,
        Text::NoSetupDifferencesDescription => "表示対象の値は参照セットアップと一致しています。"@,
        Text::CarSetupMismatch => "参照セットアップの車両が異なります。"@,
        Text::NoSetupDataYet => "セットアップデータがまだありません"@,
        Text::NoSetupDataDescription => "ライブテレメトリーへ接続するか IBT 記録を読み込むと、プレイヤー車両のセットアップを確認できます。"@,
        Text::SetupUnavailableDescription => "このセッションは CarSetup データを公開していません。観戦中、リプレイ中、セッション切替中には存在しないことがあります。"@,
        Text::SetupCouldNotBeRead => "セットアップを読み取れませんでした"@,
        Text::SessionInfoInvalidYaml => "セッション情報が有効な YAML ではありません"@,
        Text::NoSetupValues => "セットアップ値がありません"@,
        Text::NoSetupValuesDescription => "iRacing は CarSetup セクションを公開しましたが、表示できる値がありません。"@,
        Text::Value => "値"@,
        Text::General => "一般"@,
        Text::Yes => "はい"@,
        Text::No => "いいえ"@,
        Text::HideTooltips => "ツールチップを非表示"@,
        Text::ShowTooltips => "ツールチップを表示"@,
        Text::HideSectors => "セクター表示を非表示"@,
        Text::ShowSectors => "セクター表示を表示"@,
        Text::RestoreChart => "チャートを元に戻す"@,
        Text::MaximizeChart => "チャートを最大化"@,
        Text::RestoreCard => "カードを元に戻す"@,
        Text::MaximizeCard => "カードを最大化"@,
        Text::DragToReorder => "ドラッグして並べ替え"@,
        Text::Minimize => "最小化"@,
        Text::Maximize => "最大化"@,
        Text::Close => "閉じる"@,
        Text::OpenChiaroscuro => "Chiaroscuro を開く"@,
        Text::Quit => "終了"@,
        Text::OpenIRacingTelemetry => "iRacing テレメトリーを開く"@,
        Text::IRacingTelemetry => "iRacing テレメトリー"@,
        Text::IRacingOnThisPc => "この PC の iRacing"@,
        Text::LiveWindowsOnly => "ライブ iRacing テレメトリーは Windows でのみ利用できます。IBT 記録は引き続き利用できます。"@,
        Text::ConfigurationError => "設定エラー"@,
        Text::LiveSource => "ライブソース"@,
        Text::Connection => "接続状態"@,
        Text::SamplesReceived => "受信サンプル数"@,
        Text::Records => "レコード数"@,
        Text::TelemetryVariables => "テレメトリー変数"@,
        Text::LiveSourceUnavailable => "ライブソースを利用できません"@,
        Text::IbtSource => "IBT ソース"@,
        Text::SessionInfoUpdate => "セッション情報更新回数"@,
        Text::TelemetryError => "テレメトリーエラー"@,
        Text::FailedToLoadDesktopSettings => "デスクトップ設定を読み込めませんでした"@,
        Text::FailedToSaveDesktopSettings => "デスクトップ設定を保存できませんでした"@,
        Text::ConfigLocationUnavailable => "XDG_CONFIG_HOME、APPDATA、HOME のいずれも利用できません"@,
        Text::ConfigPathHasNoParent => "デスクトップ設定パスに親ディレクトリがありません"@,
        Text::UnknownTrack => "不明なトラック"@,
    }
}

/// The catalog text of `key` in `locale`.
pub open spec fn catalog(locale: Locale, key: Text) -> Seq<char> {
    match locale {
        Locale::English => english_text(key),
        Locale::Japanese => japanese_text(key),
    }
}

fn english_catalog_text(key: Text) -> (r: &'static str)
    ensures
        r@ == english_text(key),
{
    match key {
        Text::Telemetry => "Telemetry",
        Text::CarSetup => "Car setup",
        Text::Settings => "Settings",
        Text::Language => "Language",
        Text::Diagnostics => "Diagnostics",
        Text::ShowDiagnostics => "Show diagnostics",
        Text::DiagnosticsDescription => "Expose live telemetry and recording details for troubleshooting.",
        Text::Runtime => "Runtime",
        Text::ApplicationPreferences => "Application preferences and diagnostics",
        Text::ComponentPreview => "Component preview",
        Text::ComponentPreviewDescription => "Open the shared modal to verify its layout and dismissal behavior.",
        Text::OpenDialogPreview => "Open dialog preview",
        Text::About => "About",
        Text::DesktopTelemetryInterface => "Desktop telemetry interface",
        Text::Cancel => "Cancel",
        Text::Confirm => "Confirm",
        Text::DialogPreview => "Dialog preview",
        Text::DialogPreviewDescription => "A live verification of the shared Chiaro dialog component.",
        Text::CloseDialog => "Close dialog",
        Text::DialogPreviewBody => "The Settings view stays mounted behind this surface.",
        Text::DialogPreviewInstructions => "Verify the close icon, Cancel button, Escape key, and backdrop click.",
        Text::DialogPreviewNavigation => "Navigation and window controls should remain inactive while the dialog is open.",
        Text::IbtRecording => "IBT recording",
        Text::UnavailableOnThisPlatform => "Unavailable on this platform",
        Text::Disconnected => "Disconnected",
        Text::Connecting => "Connecting",
        Text::Connected => "Connected",
        Text::Waiting => "Waiting",
        Text::Live => "Live",
        Text::Offline => "Offline",
        Text::Unavailable => "Unavailable",
        Text::Connect => "Connect",
        Text::Disconnect => "Disconnect",
        Text::OpenIbt => "Open IBT",
        Text::Selecting => "Selecting...",
        Text::Loading => "Loading...",
        Text::ClearReference => "Clear reference",
        Text::NoReferenceLoaded => "No reference loaded",
        Text::ReferenceIbtUnavailable => "Reference IBT unavailable",
        Text::ReferenceSetup => "Reference setup",
        Text::ReferenceSetupUnavailable => "The reference IBT does not contain setup data.",
        Text::MainIbtRequired => "Main IBT required",
        Text::TrackMismatch => "Track mismatch",
        Text::CarMismatch => "Car mismatch",
        Text::WaitingForTrackData => "Waiting for track data",
        Text::Session => "Session",
        Text::Reference => "Reference",
        Text::MyLaps => "My laps",
        Text::Charts => "Charts",
        Text::SessionLaps => "Session laps",
        Text::Timing => "Timing",
        Text::Laps => "Laps",
        Text::Stint => "Stint",
        Text::Stints => "Stints",
        Text::Sectors => "Sectors",
        Text::Best => "Best",
        Text::Average => "Average",
        Text::Complete => "Complete",
        Text::NoSectorData => "No sector timing data",
        Text::NoStintData => "No stint data",
        Text::Layout => "Layout",
        Text::ResetLayout => "Reset layout",
        Text::Conditions => "CONDITIONS",
        Text::Car => "Car",
        Text::Class => "Class",
        Text::Time => "Time",
        Text::Date => "Date",
        Text::Length => "Length",
        Text::Type => "Type",
        Text::Source => "Source",
        Text::Weather => "Weather",
        Text::AirTemperature => "Air temp",
        Text::TrackTemperature => "Track temp",
        Text::Humidity => "Humidity",
        Text::Wind => "Wind",
        Text::LapPosition => "Lap position",
        Text::Speed => "Speed",
        Text::Pedal => "Pedal",
        Text::Throttle => "Throttle",
        Text::Brake => "Brake",
        Text::BrakePressure => "Brake pressure",
        Text::AbsActivity => "ABS activity",
        Text::AbsActive => "ABS active",
        Text::Steering => "Steering",
        Text::SteeringAngle => "Steering angle",
        Text::SteeringTorque => "Steering torque",
        Text::EngineRpm => "Engine RPM",
        Text::Rpm => "RPM",
        Text::Gear => "Gear",
        Text::VehicleDynamics => "Vehicle dynamics",
        Text::Dynamics => "Dynamics",
        Text::LateralG => "Lateral G",
        Text::LongitudinalG => "Longitudinal G",
        Text::YawRate => "Yaw rate",
        Text::WheelSlip => "Wheel slip",
        Text::TyreTemperature => "Tyre temperature",
        Text::SuspensionTravel => "Suspension travel",
        Text::FuelUsed => "Fuel used",
        Text::Delta => "Delta",
        Text::Fuel => "Fuel",
        Text::CurrentLap => "Current lap",
        Text::LastLap => "Last lap",
        Text::Position => "Position",
        Text::Travel => "Travel",
        Text::Slip => "slip",
        Text::NotAvailable => "N/A",
        Text::Cursor => "Cursor",
        Text::ReferenceCursor => "Reference cursor",
        Text::Vehicle => "Vehicle",
        Text::Inputs => "Inputs",
        Text::Tyres => "Tyres",
        Text::Wheels => "Wheels",
        Text::SingleColumn => "Single column",
        Text::TwoColumns => "Two columns",
        Text::Front => "Front",
        Text::Rear => "Rear",
        Text::FrontLeft => "Front left",
        Text::FrontRight => "Front right",
        Text::RearLeft => "Rear left",
        Text::RearRight => "Rear right",
        Text::CarcassPressure => "Carcass I / M / O · hot pressure",
        Text::ReferenceSpeed => "Reference speed",
        Text::ReferenceThrottle => "Reference throttle",
        Text::ReferenceBrake => "Reference brake",
        Text::ReferenceSteering => "Reference steering",
        Text::ReferenceSteeringTorque => "Reference steering torque",
        Text::ReferenceRpm => "Reference RPM",
        Text::ReferenceGear => "Reference gear",
        Text::ReferenceLateralG => "Reference lateral G",
        Text::ReferenceLongitudinalG => "Reference longitudinal G",
        Text::ReferenceYawRate => "Reference yaw rate",
        Text::ReferenceFuelUsed => "Reference fuel used",
        Text::ReferenceFrontLeft => "Reference front left",
        Text::ReferenceFrontRight => "Reference front right",
        Text::ReferenceRearLeft => "Reference rear left",
        Text::ReferenceRearRight => "Reference rear right",
        Text::LapDistance => "Lap distance",
        Text::Active => "Active",
        Text::Off => "Off",
        Text::Unlimited => "Unlimited",
        Text::Setup => "Setup",
        Text::SetupData => "Setup data",
        Text::WaitingForCarData => "Waiting for car data",
        Text::SetupUnavailable => "Setup unavailable",
        Text::SetupSectionUnavailable => "This setup section is no longer available.",
        Text::VehicleSpecifications => "Vehicle specifications",
        Text::Version => "Version",
        Text::Powertrain => "Powertrain",
        Text::Transmission => "Transmission",
        Text::ShiftLights => "Shift lights",
        Text::FuelSystem => "Fuel system",
        Text::TyreCompounds => "Tyre compounds",
        Text::Regulations => "Regulations",
        Text::SetupRules => "Setup rules",
        Text::FixedSetup => "Fixed setup",
        Text::OpenSetup => "Open setup",
        Text::FuelAllowance => "Fuel allowance",
        Text::WeightPenalty => "Weight penalty",
        Text::PowerAdjustment => "Power adjustment",
        Text::DryTyreSetLimit => "Dry tyre set limit",
        Text::Electric => "Electric",
        Text::Combustion => "Combustion",
        Text::Access => "Access",
        Text::ReadOnly => "Read only",
        Text::LoadType => "Load type",
        Text::CarPath => "Car path",
        Text::Revision => "Revision",
        Text::Modified => "Modified",
        Text::Saved => "Saved",
        Text::TechPassed => "Tech passed",
        Text::TechFailed => "Tech failed",
        Text::CornerComparison => "Corner comparison",
        Text::Setting => "Setting",
        Text::Current => "Current",
        Text::Difference => "Difference",
        Text::Changed => "Changed",
        Text::Unchanged => "Unchanged",
        Text::CurrentOnly => "Current only",
        Text::ReferenceOnly => "Reference only",
        Text::ChangedOnly => "Changed values only",
        Text::NoSetupDifferences => "No setup differences",
        Text::NoSetupDifferencesDescription => "The visible values match the reference setup.",
        Text::CarSetupMismatch => "The reference setup belongs to a different car.",
        Text::NoSetupDataYet => "No setup data yet",
        Text::NoSetupDataDescription => "Connect to a live telemetry source or load an IBT recording to inspect the player car setup.",
        Text::SetupUnavailableDescription => "This session does not publish CarSetup data. It can be absent while spectating, replaying, or changing sessions.",
        Text::SetupCouldNotBeRead => "Setup could not be read",
        Text::SessionInfoInvalidYaml => "The session information is not valid YAML",
        Text::NoSetupValues => "No setup values",
        Text::NoSetupValuesDescription => "iRacing published a CarSetup section, but it contains no displayable values.",
        Text::Value => "Value",
        Text::General => "General",
        Text::Yes => "Yes",
        Text::No => "No",
        Text::HideTooltips => "Hide tooltips",
        Text::ShowTooltips => "Show tooltips",
        Text::HideSectors => "Hide sectors",
        Text::ShowSectors => "Show sectors",
        Text::RestoreChart => "Restore chart",
        Text::MaximizeChart => "Maximize chart",
        Text::RestoreCard => "Restore card",
        Text::MaximizeCard => "Maximize card",
        Text::DragToReorder => "Drag to reorder",
        Text::Minimize => "Minimize",
        Text::Maximize => "Maximize",
        Text::Close => "Close",
        Text::OpenChiaroscuro => "Open Chiaroscuro",
        Text::Quit => "Quit",
        Text::OpenIRacingTelemetry => "Open iRacing telemetry",
        Text::IRacingTelemetry => "iRacing telemetry",
        Text::IRacingOnThisPc => "iRacing on this PC",
        Text::LiveWindowsOnly => "Live iRacing telemetry is available only on Windows; IBT recordings remain available.",
        Text::ConfigurationError => "Configuration error",
        Text::LiveSource => "Live source",
        Text::Connection => "Connection",
        Text::SamplesReceived => "Samples received",
        Text::Records => "Records",
        Text::TelemetryVariables => "Telemetry variables",
        Text::LiveSourceUnavailable => "Live source unavailable",
        Text::IbtSource => "IBT source",
        Text::SessionInfoUpdate => "Session info update",
        Text::TelemetryError => "Telemetry error",
        Text::FailedToLoadDesktopSettings => "Failed to load desktop settings",
        Text::FailedToSaveDesktopSettings => "Failed to save desktop settings",
        Text::ConfigLocationUnavailable => "Neither XDG_CONFIG_HOME, APPDATA nor HOME is available",
        Text::ConfigPathHasNoParent => "Desktop settings path has no parent directory",
        Text::UnknownTrack => "Unknown track",
    }
}

fn japanese_catalog_text(key: Text) -> (r: &'static str)
    ensures
        r@ == japanese_text(key),
{
    match key {
        Text::Telemetry => "テレメトリー",
        Text::CarSetup => "車両セットアップ",
        Text::Settings => "設定",
        Text::Language => "言語",
        Text::Diagnostics => "診断",
        Text::ShowDiagnostics => "診断情報を表示",
        Text::DiagnosticsDescription => "トラブルシューティング用にライブテレメトリーと記録の詳細を表示します。",
        Text::Runtime => "実行状態",
        Text::ApplicationPreferences => "アプリケーション設定と診断情報",
        Text::ComponentPreview => "コンポーネントプレビュー",
        Text::ComponentPreviewDescription => "共通モーダルのレイアウトと閉じる操作を確認します。",
        Text::OpenDialogPreview => "ダイアログプレビューを開く",
        Text::About => "このアプリについて",
        Text::DesktopTelemetryInterface => "デスクトップテレメトリーインターフェース",
        Text::Cancel => "キャンセル",
        Text::Confirm => "確認",
        Text::DialogPreview => "ダイアログプレビュー",
        Text::DialogPreviewDescription => "共通の Chiaro ダイアログコンポーネントをライブで確認できます。",
        Text::CloseDialog => "ダイアログを閉じる",
        Text::DialogPreviewBody => "この画面の背後では設定ビューが表示されたままです。",
        Text::DialogPreviewInstructions => "閉じるアイコン、キャンセル、Escape キー、背景クリックを確認してください。",
        Text::DialogPreviewNavigation => "ダイアログ表示中はナビゲーションとウィンドウ操作は無効になります。",
        Text::IbtRecording => "IBT 記録",
        Text::UnavailableOnThisPlatform => "このプラットフォームでは利用できません",
        Text::Disconnected => "未接続",
        Text::Connecting => "接続中",
        Text::Connected => "接続済み",
        Text::Waiting => "待機中",
        Text::Live => "ライブ",
        Text::Offline => "オフライン",
        Text::Unavailable => "利用不可",
        Text::Connect => "接続",
        Text::Disconnect => "切断",
        Text::OpenIbt => "IBT を開く",
        Text::Selecting => "選択中...",
        Text::Loading => "読み込み中...",
        Text::ClearReference => "参照データを消去",
        Text::NoReferenceLoaded => "参照データが読み込まれていません",
        Text::ReferenceIbtUnavailable => "参照 IBT を利用できません",
        Text::ReferenceSetup => "参照セットアップ",
        Text::ReferenceSetupUnavailable => "参照 IBT にセットアップデータがありません。",
        Text::MainIbtRequired => "メイン IBT が必要です",
        Text::TrackMismatch => "トラックが一致しません",
        Text::CarMismatch => "車両が一致しません",
        Text::WaitingForTrackData => "トラックデータを待機しています",
        Text::Session => "セッション",
        Text::Reference => "参照",
        Text::MyLaps => "マイラップ",
        Text::Charts => "チャート",
        Text::SessionLaps => "セッションラップ",
        Text::Timing => "タイミング",
        Text::Laps => "ラップ",
        Text::Stint => "スティント",
        Text::Stints => "スティント",
        Text::Sectors => "セクター",
        Text::Best => "ベスト",
        Text::Average => "平均",
        Text::Complete => "完了",
        Text::NoSectorData => "セクタータイムがありません",
        Text::NoStintData => "スティントデータがありません",
        Text::Layout => "レイアウト",
        Text::ResetLayout => "レイアウトをリセット",
        Text::Conditions => "コンディション",
        Text::Car => "車両",
        Text::Class => "クラス",
        Text::Time => "時間",
        Text::Date => "日付",
        Text::Length => "全長",
        Text::Type => "種類",
        Text::Source => "ソース",
        Text::Weather => "天候",
        Text::AirTemperature => "気温",
        Text::TrackTemperature => "路面温度",
        Text::Humidity => "湿度",
        Text::Wind => "風",
        Text::LapPosition => "ラップ位置",
        Text::Speed => "速度",
        Text::Pedal => "ペダル",
        Text::Throttle => "スロットル",
        Text::Brake => "ブレーキ",
        Text::BrakePressure => "ブレーキ圧",
        Text::AbsActivity => "ABS 作動",
        Text::AbsActive => "ABS 作動中",
        Text::Steering => "ステアリング",
        Text::SteeringAngle => "ステアリング角",
        Text::SteeringTorque => "ステアリングトルク",
        Text::EngineRpm => "エンジン回転数",
        Text::Rpm => "RPM",
        Text::Gear => "ギア",
        Text::VehicleDynamics => "車両ダイナミクス",
        Text::Dynamics => "ダイナミクス",
        Text::LateralG => "横 G",
        Text::LongitudinalG => "縦 G",
        Text::YawRate => "ヨーレート",
        Text::WheelSlip => "ホイールスリップ",
        Text::TyreTemperature => "タイヤ温度",
        Text::SuspensionTravel => "サスペンション",
        Text::FuelUsed => "燃料消費",
        Text::Delta => "デルタ",
        Text::Fuel => "燃料",
        Text::CurrentLap => "現在のラップ",
        Text::LastLap => "前回のラップ",
        Text::Position => "順位",
        Text::Travel => "ストローク",
        Text::Slip => "スリップ",
        Text::NotAvailable => "該当なし",
        Text::Cursor => "カーソル",
        Text::ReferenceCursor => "参照カーソル",
        Text::Vehicle => "車両",
        Text::Inputs => "操作入力",
        Text::Tyres => "タイヤ",
        Text::Wheels => "ホイール",
        Text::SingleColumn => "1 列",
        Text::TwoColumns => "2 列",
        Text::Front => "フロント",
        Text::Rear => "リア",
        Text::FrontLeft => "左フロント",
        Text::FrontRight => "右フロント",
        Text::RearLeft => "左リア",
        Text::RearRight => "右リア",
        Text::CarcassPressure => "カーカス 内側 / 中央 / 外側・温間空気圧",
        Text::ReferenceSpeed => "参照速度",
        Text::ReferenceThrottle => "参照スロットル",
        Text::ReferenceBrake => "参照ブレーキ",
        Text::ReferenceSteering => "参照ステアリング",
        Text::ReferenceSteeringTorque => "参照ステアリングトルク",
        Text::ReferenceRpm => "参照 RPM",
        Text::ReferenceGear => "参照ギア",
        Text::ReferenceLateralG => "参照横 G",
        Text::ReferenceLongitudinalG => "参照縦 G",
        Text::ReferenceYawRate => "参照ヨーレート",
        Text::ReferenceFuelUsed => "参照燃料消費",
        Text::ReferenceFrontLeft => "参照・左フロント",
        Text::ReferenceFrontRight => "参照・右フロント",
        Text::ReferenceRearLeft => "参照・左リア",
        Text::ReferenceRearRight => "参照・右リア",
        Text::LapDistance => "ラップ距離",
        Text::Active => "作動",
        Text::Off => "オフ",
        Text::Unlimited => "無制限",
        Text::Setup => "セットアップ",
        Text::SetupData => "セットアップデータ",
        Text::WaitingForCarData => "車両データを待機しています",
        Text::SetupUnavailable => "セットアップを利用できません",
        Text::SetupSectionUnavailable => "このセットアップ項目は現在利用できません。",
        Text::VehicleSpecifications => "車両仕様",
        Text::Version => "バージョン",
        Text::Powertrain => "パワートレイン",
        Text::Transmission => "トランスミッション",
        Text::ShiftLights => "シフトライト",
        Text::FuelSystem => "燃料システム",
        Text::TyreCompounds => "タイヤコンパウンド",
        Text::Regulations => "レギュレーション",
        Text::SetupRules => "セットアップ規則",
        Text::FixedSetup => "固定セットアップ",
        Text::OpenSetup => "オープンセットアップ",
        Text::FuelAllowance => "燃料使用制限",
        Text::WeightPenalty => "重量ペナルティ",
        Text::PowerAdjustment => "出力調整",
        Text::DryTyreSetLimit => "ドライタイヤセット上限",
        Text::Electric => "電動",
        Text::Combustion => "内燃機関",
        Text::Access => "アクセス",
        Text::ReadOnly => "読み取り専用",
        Text::LoadType => "読み込み形式",
        Text::CarPath => "車両パス",
        Text::Revision => "リビジョン",
        Text::Modified => "変更済み",
        Text::Saved => "保存済み",
        Text::TechPassed => "車検合格",
        Text::TechFailed => "車検不合格",
        Text::CornerComparison => "コーナー比較",
        Text::Setting => "設定項目",
        Text::Current => "現在",
        Text::Difference => "差分",
        Text::Changed => "変更あり",
        Text::Unchanged => "変更なし",
        Text::CurrentOnly => "現在側のみ",
        Text::ReferenceOnly => "参照側のみ",
        Text::ChangedOnly => "変更項目のみ",
        Text::NoSetupDifferences => "セットアップの差分はありません",
        Text::NoSetupDifferencesDescription => "表示対象の値は参照セットアップと一致しています。",
        Text::CarSetupMismatch => "参照セットアップの車両が異なります。",
        Text::NoSetupDataYet => "セットアップデータがまだありません",
        Text::NoSetupDataDescription => "ライブテレメトリーへ接続するか IBT 記録を読み込むと、プレイヤー車両のセットアップを確認できます。",
        Text::SetupUnavailableDescription => "このセッションは CarSetup データを公開していません。観戦中、リプレイ中、セッション切替中には存在しないことがあります。",
        Text::SetupCouldNotBeRead => "セットアップを読み取れませんでした",
        Text::SessionInfoInvalidYaml => "セッション情報が有効な YAML ではありません",
        Text::NoSetupValues => "セットアップ値がありません",
        Text::NoSetupValuesDescription => "iRacing は CarSetup セクションを公開しましたが、表示できる値がありません。",
        Text::Value => "値",
        Text::General => "一般",
        Text::Yes => "はい",
        Text::No => "いいえ",
        Text::HideTooltips => "ツールチップを非表示",
        Text::ShowTooltips => "ツールチップを表示",
        Text::HideSectors => "セクター表示を非表示",
        Text::ShowSectors => "セクター表示を表示",
        Text::RestoreChart => "チャートを元に戻す",
        Text::MaximizeChart => "チャートを最大化",
        Text::RestoreCard => "カードを元に戻す",
        Text::MaximizeCard => "カードを最大化",
        Text::DragToReorder => "ドラッグして並べ替え",
        Text::Minimize => "最小化",
        Text::Maximize => "最大化",
        Text::Close => "閉じる",
        Text::OpenChiaroscuro => "Chiaroscuro を開く",
        Text::Quit => "終了",
        Text::OpenIRacingTelemetry => "iRacing テレメトリーを開く",
        Text::IRacingTelemetry => "iRacing テレメトリー",
        Text::IRacingOnThisPc => "この PC の iRacing",
        Text::LiveWindowsOnly => "ライブ iRacing テレメトリーは Windows でのみ利用できます。IBT 記録は引き続き利用できます。",
        Text::ConfigurationError => "設定エラー",
        Text::LiveSource => "ライブソース",
        Text::Connection => "接続状態",
        Text::SamplesReceived => "受信サンプル数",
        Text::Records => "レコード数",
        Text::TelemetryVariables => "テレメトリー変数",
        Text::LiveSourceUnavailable => "ライブソースを利用できません",
        Text::IbtSource => "IBT ソース",
        Text::SessionInfoUpdate => "セッション情報更新回数",
        Text::TelemetryError => "テレメトリーエラー",
        Text::FailedToLoadDesktopSettings => "デスクトップ設定を読み込めませんでした",
        Text::FailedToSaveDesktopSettings => "デスクトップ設定を保存できませんでした",
        Text::ConfigLocationUnavailable => "XDG_CONFIG_HOME、APPDATA、HOME のいずれも利用できません",
        Text::ConfigPathHasNoParent => "デスクトップ設定パスに親ディレクトリがありません",
        Text::UnknownTrack => "不明なトラック",
    }
}

/// The catalog text of `key` in `locale`.
pub fn catalog_text(locale: Locale, key: Text) -> (r: &'static str)
    ensures
        r@ == catalog(locale, key),
{
    match locale {
        Locale::English => english_catalog_text(key),
        Locale::Japanese => japanese_catalog_text(key),
    }
}

/// The Japanese label of a known setup phrase.
pub open spec fn setup_phrase(label: Seq<char>) -> Option<Seq<char>> {
    if label == "Tires Aero"@ || label == "Tyres Aero"@ {
        Some("タイヤ・エアロ"@)
    } else if label == "Vehicle Specific Section"@ {
        Some("車両固有設定"@)
    } else if label == "Tire Type"@ || label == "Tyre Type"@ {
        Some("タイヤ種別"@)
    } else if label == "Starting Pressure"@ {
        Some("開始時空気圧"@)
    } else if label == "Last Hot Pressure"@ {
        Some("直近の温間空気圧"@)
    } else if label == "Last Temps OMI"@ {
        Some("直近温度 外側・中央・内側"@)
    } else if label == "Last Temps IMO"@ {
        Some("直近温度 内側・中央・外側"@)
    } else if label == "Cold Pressure"@ {
        Some("冷間空気圧"@)
    } else if label == "Hot Pressure"@ {
        Some("温間空気圧"@)
    } else if label == "Tread Remaining"@ {
        Some("トレッド残量"@)
    } else if label == "Front ARB"@ {
        Some("フロント・スタビライザー"@)
    } else if label == "Rear ARB"@ {
        Some("リア・スタビライザー"@)
    } else if label == "Arb Setting"@ || label == "ARB Setting"@ {
        Some("スタビライザー設定"@)
    } else if label == "Aero Balance"@ {
        Some("空力バランス"@)
    } else if label == "Rear Wing"@ {
        Some("リアウイング"@)
    } else if label == "Wing Angle"@ {
        Some("ウイング角度"@)
    } else if label == "Ride Height"@ {
        Some("車高"@)
    } else if label == "Front Ride Height"@ {
        Some("フロント車高"@)
    } else if label == "Rear Ride Height"@ {
        Some("リア車高"@)
    } else if label == "Brake Bias"@ {
        Some("ブレーキバイアス"@)
    } else if label == "Brake Pressure"@ {
        Some("ブレーキ圧"@)
    } else if label == "Brake Pressure Bias"@ {
        Some("ブレーキ圧バイアス"@)
    } else if label == "Front Brake Pad Mu"@ {
        Some("フロントブレーキパッド摩擦係数"@)
    } else if label == "Rear Brake Pad Mu"@ {
        Some("リアブレーキパッド摩擦係数"@)
    } else if label == "Spring Rate"@ {
        Some("スプリングレート"@)
    } else if label == "Spring Perch Offset"@ {
        Some("スプリングシートオフセット"@)
    } else if label == "Bump Stiffness"@ {
        Some("バンプ剛性"@)
    } else if label == "Rebound Stiffness"@ {
        Some("リバウンド剛性"@)
    } else if label == "Slow Bump"@ {
        Some("低速バンプ"@)
    } else if label == "Fast Bump"@ {
        Some("高速バンプ"@)
    } else if label == "Slow Rebound"@ {
        Some("低速リバウンド"@)
    } else if label == "Fast Rebound"@ {
        Some("高速リバウンド"@)
    } else if label == "Differential Preload"@ || label == "Diff Preload"@ {
        Some("デフプリロード"@)
    } else if label == "Fuel Level"@ {
        Some("燃料量"@)
    } else if label == "Fuel Low Warning"@ {
        Some("燃料残量警告"@)
    } else if label == "Steering Ratio"@ {
        Some("ステアリングレシオ"@)
    } else if label == "Front Weight"@ {
        Some("フロント重量配分"@)
    } else if label == "Corner Weight"@ {
        Some("コーナーウェイト"@)
    } else if label == "Cross Weight"@ {
        Some("クロスウェイト"@)
    } else if label == "In Car Dials"@ {
        Some("車内調整"@)
    } else if label == "Display Page"@ {
        Some("表示ページ"@)
    } else if label == "Tc Mode"@ || label == "TC Mode"@ {
        Some("TC モード"@)
    } else if label == "Abs Setting"@ || label == "ABS Setting"@ {
        Some("ABS 設定"@)
    } else if label == "Tc Setting"@ || label == "TC Setting"@ {
        Some("TC 設定"@)
    } else if label == "Throttle Setting"@ {
        Some("スロットル設定"@)
    } else if label == "Toe In"@ {
        Some("トーイン"@)
    } else if label == "Toe Out"@ {
        Some("トーアウト"@)
    } else if label == "LF Tire Pressure"@ || label == "LF Tyre Pressure"@ {
        Some("左フロント・タイヤ空気圧"@)
    } else if label == "RF Tire Pressure"@ || label == "RF Tyre Pressure"@ {
        Some("右フロント・タイヤ空気圧"@)
    } else if label == "LR Tire Pressure"@ || label == "LR Tyre Pressure"@ {
        Some("左リア・タイヤ空気圧"@)
    } else if label == "RR Tire Pressure"@ || label == "RR Tyre Pressure"@ {
        Some("右リア・タイヤ空気圧"@)
    } else if label == "Left Front"@ || label == "Front Left"@ {
        Some("左フロント"@)
    } else if label == "Right Front"@ || label == "Front Right"@ {
        Some("右フロント"@)
    } else if label == "Left Rear"@ || label == "Rear Left"@ {
        Some("左リア"@)
    } else if label == "Right Rear"@ || label == "Rear Right"@ {
        Some("右リア"@)
    } else {
        None
    }
}

fn japanese_setup_phrase(label: &str) -> (r: Option<&'static str>)
    ensures
        match r {
            Some(t) => setup_phrase(label@) == Some(t@),
            None => setup_phrase(label@) is None,
        },
{
    if str_eq(label, "Tires Aero") || str_eq(label, "Tyres Aero") {
        Some("タイヤ・エアロ")
    } else if str_eq(label, "Vehicle Specific Section") {
        Some("車両固有設定")
    } else if str_eq(label, "Tire Type") || str_eq(label, "Tyre Type") {
        Some("タイヤ種別")
    } else if str_eq(label, "Starting Pressure") {
        Some("開始時空気圧")
    } else if str_eq(label, "Last Hot Pressure") {
        Some("直近の温間空気圧")
    } else if str_eq(label, "Last Temps OMI") {
        Some("直近温度 外側・中央・内側")
    } else if str_eq(label, "Last Temps IMO") {
        Some("直近温度 内側・中央・外側")
    } else if str_eq(label, "Cold Pressure") {
        Some("冷間空気圧")
    } else if str_eq(label, "Hot Pressure") {
        Some("温間空気圧")
    } else if str_eq(label, "Tread Remaining") {
        Some("トレッド残量")
    } else if str_eq(label, "Front ARB") {
        Some("フロント・スタビライザー")
    } else if str_eq(label, "Rear ARB") {
        Some("リア・スタビライザー")
    } else if str_eq(label, "Arb Setting") || str_eq(label, "ARB Setting") {
        Some("スタビライザー設定")
    } else if str_eq(label, "Aero Balance") {
        Some("空力バランス")
    } else if str_eq(label, "Rear Wing") {
        Some("リアウイング")
    } else if str_eq(label, "Wing Angle") {
        Some("ウイング角度")
    } else if str_eq(label, "Ride Height") {
        Some("車高")
    } else if str_eq(label, "Front Ride Height") {
        Some("フロント車高")
    } else if str_eq(label, "Rear Ride Height") {
        Some("リア車高")
    } else if str_eq(label, "Brake Bias") {
        Some("ブレーキバイアス")
    } else if str_eq(label, "Brake Pressure") {
        Some("ブレーキ圧")
    } else if str_eq(label, "Brake Pressure Bias") {
        Some("ブレーキ圧バイアス")
    } else if str_eq(label, "Front Brake Pad Mu") {
        Some("フロントブレーキパッド摩擦係数")
    } else if str_eq(label, "Rear Brake Pad Mu") {
        Some("リアブレーキパッド摩擦係数")
    } else if str_eq(label, "Spring Rate") {
        Some("スプリングレート")
    } else if str_eq(label, "Spring Perch Offset") {
        Some("スプリングシートオフセット")
    } else if str_eq(label, "Bump Stiffness") {
        Some("バンプ剛性")
    } else if str_eq(label, "Rebound Stiffness") {
        Some("リバウンド剛性")
    } else if str_eq(label, "Slow Bump") {
        Some("低速バンプ")
    } else if str_eq(label, "Fast Bump") {
        Some("高速バンプ")
    } else if str_eq(label, "Slow Rebound") {
        Some("低速リバウンド")
    } else if str_eq(label, "Fast Rebound") {
        Some("高速リバウンド")
    } else if str_eq(label, "Differential Preload") || str_eq(label, "Diff Preload") {
        Some("デフプリロード")
    } else if str_eq(label, "Fuel Level") {
        Some("燃料量")
    } else if str_eq(label, "Fuel Low Warning") {
        Some("燃料残量警告")
    } else if str_eq(label, "Steering Ratio") {
        Some("ステアリングレシオ")
    } else if str_eq(label, "Front Weight") {
        Some("フロント重量配分")
    } else if str_eq(label, "Corner Weight") {
        Some("コーナーウェイト")
    } else if str_eq(label, "Cross Weight") {
        Some("クロスウェイト")
    } else if str_eq(label, "In Car Dials") {
        Some("車内調整")
    } else if str_eq(label, "Display Page") {
        Some("表示ページ")
    } else if str_eq(label, "Tc Mode") || str_eq(label, "TC Mode") {
        Some("TC モード")
    } else if str_eq(label, "Abs Setting") || str_eq(label, "ABS Setting") {
        Some("ABS 設定")
    } else if str_eq(label, "Tc Setting") || str_eq(label, "TC Setting") {
        Some("TC 設定")
    } else if str_eq(label, "Throttle Setting") {
        Some("スロットル設定")
    } else if str_eq(label, "Toe In") {
        Some("トーイン")
    } else if str_eq(label, "Toe Out") {
        Some("トーアウト")
    } else if str_eq(label, "LF Tire Pressure") || str_eq(label, "LF Tyre Pressure") {
        Some("左フロント・タイヤ空気圧")
    } else if str_eq(label, "RF Tire Pressure") || str_eq(label, "RF Tyre Pressure") {
        Some("右フロント・タイヤ空気圧")
    } else if str_eq(label, "LR Tire Pressure") || str_eq(label, "LR Tyre Pressure") {
        Some("左リア・タイヤ空気圧")
    } else if str_eq(label, "RR Tire Pressure") || str_eq(label, "RR Tyre Pressure") {
        Some("右リア・タイヤ空気圧")
    } else if str_eq(label, "Left Front") || str_eq(label, "Front Left") {
        Some("左フロント")
    } else if str_eq(label, "Right Front") || str_eq(label, "Front Right") {
        Some("右フロント")
    } else if str_eq(label, "Left Rear") || str_eq(label, "Rear Left") {
        Some("左リア")
    } else if str_eq(label, "Right Rear") || str_eq(label, "Rear Right") {
        Some("右リア")
    } else {
        None
    }
}

/// The Japanese word for a known setup word.
pub open spec fn setup_word(word: Seq<char>) -> Option<Seq<char>> {
    if word == "LF"@ {
        Some("左フロント"@)
    } else if word == "RF"@ {
        Some("右フロント"@)
    } else if word == "LR"@ {
        Some("左リア"@)
    } else if word == "RR"@ {
        Some("右リア"@)
    } else if word == "Left"@ {
        Some("左"@)
    } else if word == "Right"@ {
        Some("右"@)
    } else if word == "Front"@ {
        Some("フロント"@)
    } else if word == "Rear"@ {
        Some("リア"@)
    } else if word == "Tire"@ || word == "Tires"@ || word == "Tyre"@ || word == "Tyres"@ {
        Some("タイヤ"@)
    } else if word == "Aero"@ || word == "Aerodynamics"@ {
        Some("エアロ"@)
    } else if word == "Chassis"@ {
        Some("シャシー"@)
    } else if word == "Vehicle"@ {
        Some("車両"@)
    } else if word == "Specific"@ {
        Some("固有"@)
    } else if word == "Section"@ {
        Some("設定"@)
    } else if word == "General"@ {
        Some("一般"@)
    } else if word == "Arbitrary"@ {
        Some("任意"@)
    } else if word == "Setting"@ || word == "Settings"@ {
        Some("設定"@)
    } else if word == "Cold"@ {
        Some("冷間"@)
    } else if word == "Hot"@ {
        Some("温間"@)
    } else if word == "Pressure"@ {
        Some("空気圧"@)
    } else if word == "Tread"@ {
        Some("トレッド"@)
    } else if word == "Last"@ {
        Some("直近"@)
    } else if word == "Temps"@ || word == "Temperature"@ || word == "Temperatures"@ {
        Some("温度"@)
    } else if word == "Starting"@ {
        Some("開始時"@)
    } else if word == "Remaining"@ {
        Some("残量"@)
    } else if word == "ARB"@ {
        Some("スタビライザー"@)
    } else if word == "Antiroll"@ || word == "Anti-Roll"@ {
        Some("スタビライザー"@)
    } else if word == "Bar"@ {
        Some("バー"@)
    } else if word == "Damper"@ || word == "Dampers"@ {
        Some("ダンパー"@)
    } else if word == "Bump"@ {
        Some("バンプ"@)
    } else if word == "Rebound"@ {
        Some("リバウンド"@)
    } else if word == "Compression"@ {
        Some("コンプレッション"@)
    } else if word == "Slow"@ {
        Some("低速"@)
    } else if word == "Fast"@ {
        Some("高速"@)
    } else if word == "Stiffness"@ {
        Some("剛性"@)
    } else if word == "Wing"@ {
        Some("ウイング"@)
    } else if word == "Balance"@ {
        Some("バランス"@)
    } else if word == "Camber"@ {
        Some("キャンバー"@)
    } else if word == "Caster"@ {
        Some("キャスター"@)
    } else if word == "Toe"@ {
        Some("トー"@)
    } else if word == "In"@ {
        Some("イン"@)
    } else if word == "Out"@ {
        Some("アウト"@)
    } else if word == "Spring"@ || word == "Springs"@ {
        Some("スプリング"@)
    } else if word == "Rate"@ {
        Some("レート"@)
    } else if word == "Ride"@ {
        Some("車高"@)
    } else if word == "Height"@ {
        Some("高さ"@)
    } else if word == "Packers"@ || word == "Packer"@ {
        Some("パッカー"@)
    } else if word == "Brake"@ || word == "Brakes"@ {
        Some("ブレーキ"@)
    } else if word == "Pad"@ || word == "Pads"@ {
        Some("パッド"@)
    } else if word == "Mu"@ {
        Some("摩擦係数"@)
    } else if word == "Bias"@ {
        Some("バイアス"@)
    } else if word == "Fuel"@ {
        Some("燃料"@)
    } else if word == "Level"@ {
        Some("量"@)
    } else if word == "Differential"@ || word == "Diff"@ {
        Some("デフ"@)
    } else if word == "Preload"@ {
        Some("プリロード"@)
    } else if word == "Power"@ {
        Some("パワー"@)
    } else if word == "Coast"@ {
        Some("コースト"@)
    } else if word == "Clutch"@ {
        Some("クラッチ"@)
    } else if word == "Steering"@ {
        Some("ステアリング"@)
    } else if word == "Ratio"@ {
        Some("レシオ"@)
    } else if word == "Gear"@ || word == "Gearing"@ {
        Some("ギア"@)
    } else if word == "Final"@ {
        Some("ファイナル"@)
    } else if word == "Drive"@ {
        Some("ドライブ"@)
    } else if word == "Weight"@ {
        Some("重量"@)
    } else if word == "Cross"@ {
        Some("クロス"@)
    } else if word == "Ballast"@ {
        Some("バラスト"@)
    } else if word == "Cooling"@ {
        Some("冷却"@)
    } else if word == "Duct"@ || word == "Ducts"@ {
        Some("ダクト"@)
    } else if word == "Traction"@ {
        Some("トラクション"@)
    } else if word == "Control"@ {
        Some("コントロール"@)
    } else if word == "Mode"@ {
        Some("モード"@)
    } else if word == "Page"@ {
        Some("ページ"@)
    } else if word == "Display"@ {
        Some("表示"@)
    } else if word == "Warning"@ {
        Some("警告"@)
    } else if word == "Low"@ {
        Some("低"@)
    } else if word == "Angle"@ {
        Some("角度"@)
    } else if word == "Perch"@ {
        Some("シート"@)
    } else if word == "ABS"@ {
        Some("ABS"@)
    } else if word == "Map"@ {
        Some("マップ"@)
    } else if word == "Engine"@ {
        Some("エンジン"@)
    } else if word == "Throttle"@ {
        Some("スロットル"@)
    } else if word == "Smoothing"@ {
        Some("スムージング"@)
    } else if word == "Offset"@ {
        Some("オフセット"@)
    } else if word == "Travel"@ {
        Some("ストローク"@)
    } else if word == "Bumpstop"@ || word == "Bumpstops"@ {
        Some("バンプストップ"@)
    } else if word == "Third"@ {
        Some("サード"@)
    } else if word == "Heave"@ {
        Some("ヒーブ"@)
    } else {
        None
    }
}

fn japanese_setup_word(word: &str) -> (r: Option<&'static str>)
    ensures
        match r {
            Some(t) => setup_word(word@) == Some(t@),
            None => setup_word(word@) is None,
        },
{
    if str_eq(word, "LF") {
        Some("左フロント")
    } else if str_eq(word, "RF") {
        Some("右フロント")
    } else if str_eq(word, "LR") {
        Some("左リア")
    } else if str_eq(word, "RR") {
        Some("右リア")
    } else if str_eq(word, "Left") {
        Some("左")
    } else if str_eq(word, "Right") {
        Some("右")
    } else if str_eq(word, "Front") {
        Some("フロント")
    } else if str_eq(word, "Rear") {
        Some("リア")
    } else if str_eq(word, "Tire") || str_eq(word, "Tires") || str_eq(word, "Tyre") || str_eq(word, "Tyres") {
        Some("タイヤ")
    } else if str_eq(word, "Aero") || str_eq(word, "Aerodynamics") {
        Some("エアロ")
    } else if str_eq(word, "Chassis") {
        Some("シャシー")
    } else if str_eq(word, "Vehicle") {
        Some("車両")
    } else if str_eq(word, "Specific") {
        Some("固有")
    } else if str_eq(word, "Section") {
        Some("設定")
    } else if str_eq(word, "General") {
        Some("一般")
    } else if str_eq(word, "Arbitrary") {
        Some("任意")
    } else if str_eq(word, "Setting") || str_eq(word, "Settings") {
        Some("設定")
    } else if str_eq(word, "Cold") {
        Some("冷間")
    } else if str_eq(word, "Hot") {
        Some("温間")
    } else if str_eq(word, "Pressure") {
        Some("空気圧")
    } else if str_eq(word, "Tread") {
        Some("トレッド")
    } else if str_eq(word, "Last") {
        Some("直近")
    } else if str_eq(word, "Temps") || str_eq(word, "Temperature") || str_eq(word, "Temperatures") {
        Some("温度")
    } else if str_eq(word, "Starting") {
        Some("開始時")
    } else if str_eq(word, "Remaining") {
        Some("残量")
    } else if str_eq(word, "ARB") {
        Some("スタビライザー")
    } else if str_eq(word, "Antiroll") || str_eq(word, "Anti-Roll") {
        Some("スタビライザー")
    } else if str_eq(word, "Bar") {
        Some("バー")
    } else if str_eq(word, "Damper") || str_eq(word, "Dampers") {
        Some("ダンパー")
    } else if str_eq(word, "Bump") {
        Some("バンプ")
    } else if str_eq(word, "Rebound") {
        Some("リバウンド")
    } else if str_eq(word, "Compression") {
        Some("コンプレッション")
    } else if str_eq(word, "Slow") {
        Some("低速")
    } else if str_eq(word, "Fast") {
        Some("高速")
    } else if str_eq(word, "Stiffness") {
        Some("剛性")
    } else if str_eq(word, "Wing") {
        Some("ウイング")
    } else if str_eq(word, "Balance") {
        Some("バランス")
    } else if str_eq(word, "Camber") {
        Some("キャンバー")
    } else if str_eq(word, "Caster") {
        Some("キャスター")
    } else if str_eq(word, "Toe") {
        Some("トー")
    } else if str_eq(word, "In") {
        Some("イン")
    } else if str_eq(word, "Out") {
        Some("アウト")
    } else if str_eq(word, "Spring") || str_eq(word, "Springs") {
        Some("スプリング")
    } else if str_eq(word, "Rate") {
        Some("レート")
    } else if str_eq(word, "Ride") {
        Some("車高")
    } else if str_eq(word, "Height") {
        Some("高さ")
    } else if str_eq(word, "Packers") || str_eq(word, "Packer") {
        Some("パッカー")
    } else if str_eq(word, "Brake") || str_eq(word, "Brakes") {
        Some("ブレーキ")
    } else if str_eq(word, "Pad") || str_eq(word, "Pads") {
        Some("パッド")
    } else if str_eq(word, "Mu") {
        Some("摩擦係数")
    } else if str_eq(word, "Bias") {
        Some("バイアス")
    } else if str_eq(word, "Fuel") {
        Some("燃料")
    } else if str_eq(word, "Level") {
        Some("量")
    } else if str_eq(word, "Differential") || str_eq(word, "Diff") {
        Some("デフ")
    } else if str_eq(word, "Preload") {
        Some("プリロード")
    } else if str_eq(word, "Power") {
        Some("パワー")
    } else if str_eq(word, "Coast") {
        Some("コースト")
    } else if str_eq(word, "Clutch") {
        Some("クラッチ")
    } else if str_eq(word, "Steering") {
        Some("ステアリング")
    } else if str_eq(word, "Ratio") {
        Some("レシオ")
    } else if str_eq(word, "Gear") || str_eq(word, "Gearing") {
        Some("ギア")
    } else if str_eq(word, "Final") {
        Some("ファイナル")
    } else if str_eq(word, "Drive") {
        Some("ドライブ")
    } else if str_eq(word, "Weight") {
        Some("重量")
    } else if str_eq(word, "Cross") {
        Some("クロス")
    } else if str_eq(word, "Ballast") {
        Some("バラスト")
    } else if str_eq(word, "Cooling") {
        Some("冷却")
    } else if str_eq(word, "Duct") || str_eq(word, "Ducts") {
        Some("ダクト")
    } else if str_eq(word, "Traction") {
        Some("トラクション")
    } else if str_eq(word, "Control") {
        Some("コントロール")
    } else if str_eq(word, "Mode") {
        Some("モード")
    } else if str_eq(word, "Page") {
        Some("ページ")
    } else if str_eq(word, "Display") {
        Some("表示")
    } else if str_eq(word, "Warning") {
        Some("警告")
    } else if str_eq(word, "Low") {
        Some("低")
    } else if str_eq(word, "Angle") {
        Some("角度")
    } else if str_eq(word, "Perch") {
        Some("シート")
    } else if str_eq(word, "ABS") {
        Some("ABS")
    } else if str_eq(word, "Map") {
        Some("マップ")
    } else if str_eq(word, "Engine") {
        Some("エンジン")
    } else if str_eq(word, "Throttle") {
        Some("スロットル")
    } else if str_eq(word, "Smoothing") {
        Some("スムージング")
    } else if str_eq(word, "Offset") {
        Some("オフセット")
    } else if str_eq(word, "Travel") {
        Some("ストローク")
    } else if str_eq(word, "Bumpstop") || str_eq(word, "Bumpstops") {
        Some("バンプストップ")
    } else if str_eq(word, "Third") {
        Some("サード")
    } else if str_eq(word, "Heave") {
        Some("ヒーブ")
    } else {
        None
    }
}

} // verus!

verus! {

/// The catalog of one locale.
#[derive(Debug, Clone, Copy)]
pub struct Translations(pub Locale);

impl Translations {
    pub fn new(locale: Locale) -> (r: Self)
        ensures
            r.0 == locale,
    {
        Translations(locale)
    }

    pub fn locale(self) -> (r: Locale)
        ensures
            r == self.0,
    {
        self.0
    }

    /// The text of `key` in this catalog's locale.
    pub fn get(self, key: Text) -> (r: &'static str)
        ensures
            r@ == catalog(self.0, key),
    {
        catalog_text(self.0, key)
    }
}

/// "1 lap", "N laps", or the Japanese counter form.
pub fn count_laps(locale: Locale, count: usize) -> (r: String)
    ensures
        r@ == (match locale {
            Locale::English => if count == 1 {
                "1 lap"@
            } else {
                decimal(count as nat) + " laps"@
            },
            Locale::Japanese => decimal(count as nat) + " ラップ"@,
        }),
{
    match locale {
        Locale::English => if count == 1 {
            to_owned_string("1 lap")
        } else {
            concat_str(usize_to_string(count), " laps")
        },
        Locale::Japanese => concat_str(usize_to_string(count), " ラップ"),
    }
}

/// "1 sample", "N samples", or the Japanese counter form.
pub fn count_samples(locale: Locale, count: u64) -> (r: String)
    ensures
        r@ == (match locale {
            Locale::English => if count == 1 {
                "1 sample"@
            } else {
                decimal(count as nat) + " samples"@
            },
            Locale::Japanese => decimal(count as nat) + " サンプル"@,
        }),
{
    match locale {
        Locale::English => if count == 1 {
            to_owned_string("1 sample")
        } else {
            concat_str(u64_to_string(count), " samples")
        },
        Locale::Japanese => concat_str(u64_to_string(count), " サンプル"),
    }
}

/// "1 turn", "N turns", or the Japanese counter form.
pub fn count_turns(locale: Locale, count: i32) -> (r: String)
    ensures
        r@ == (match locale {
            Locale::English => if count == 1 {
                "1 turn"@
            } else {
                signed_decimal(count as int) + " turns"@
            },
            Locale::Japanese => signed_decimal(count as int) + " コーナー"@,
        }),
{
    match locale {
        Locale::English => if count == 1 {
            to_owned_string("1 turn")
        } else {
            concat_str(i32_to_string(count), " turns")
        },
        Locale::Japanese => concat_str(i32_to_string(count), " コーナー"),
    }
}

/// The accessible label of a control that expands `title`.
pub fn expand_label(locale: Locale, title: &str) -> (r: String)
    ensures
        r@ == (match locale {
            Locale::English => "Expand "@ + title@,
            Locale::Japanese => title@ + "を展開"@,
        }),
{
    match locale {
        Locale::English => join2("Expand ", title),
        Locale::Japanese => join2(title, "を展開"),
    }
}

/// The accessible label of a control that collapses `title`.
pub fn collapse_label(locale: Locale, title: &str) -> (r: String)
    ensures
        r@ == (match locale {
            Locale::English => "Collapse "@ + title@,
            Locale::Japanese => title@ + "を折りたたむ"@,
        }),
{
    match locale {
        Locale::English => join2("Collapse ", title),
        Locale::Japanese => join2(title, "を折りたたむ"),
    }
}

/// The number of engine cylinders.
pub fn cylinder_count(locale: Locale, count: i32) -> (r: String)
    ensures
        r@ == signed_decimal(count as int) + (match locale {
            Locale::English => " cyl"@,
            Locale::Japanese => " 気筒"@,
        }),
{
    match locale {
        Locale::English => concat_str(i32_to_string(count), " cyl"),
        Locale::Japanese => concat_str(i32_to_string(count), " 気筒"),
    }
}

/// The number of forward gears.
pub fn gear_count(locale: Locale, count: i32) -> (r: String)
    ensures
        r@ == signed_decimal(count as int) + (match locale {
            Locale::English => "-speed"@,
            Locale::Japanese => " 速"@,
        }),
{
    match locale {
        Locale::English => concat_str(i32_to_string(count), "-speed"),
        Locale::Japanese => concat_str(i32_to_string(count), " 速"),
    }
}

/// The label of the `index`-th item of an unnamed list.
pub fn item_number(locale: Locale, index: usize) -> (r: String)
    ensures
        r@ == (match locale {
            Locale::English => "Item "@,
            Locale::Japanese => "項目 "@,
        }) + decimal(index as nat),
{
    let n = usize_to_string(index);
    match locale {
        Locale::English => join2("Item ", n.as_str()),
        Locale::Japanese => join2("項目 ", n.as_str()),
    }
}

/// The message shown when a recording cannot be opened.
pub fn failed_to_open(locale: Locale, source: &str, error: &str) -> (r: String)
    ensures
        r@ == (match locale {
            Locale::English => "Failed to open "@ + source@ + ": "@ + error@,
            Locale::Japanese => source@ + " を開けませんでした: "@ + error@,
        }),
{
    match locale {
        Locale::English => concat_str(join3("Failed to open ", source, ": "), error),
        Locale::Japanese => join3(source, " を開けませんでした: ", error),
    }
}

/// The message shown when a recording holds no telemetry record.
pub fn no_telemetry_records(locale: Locale, file_name: &str) -> (r: String)
    ensures
        r@ == file_name@ + (match locale {
            Locale::English => " contains no telemetry records"@,
            Locale::Japanese => " にテレメトリーレコードがありません"@,
        }),
{
    match locale {
        Locale::English => join2(file_name, " contains no telemetry records"),
        Locale::Japanese => join2(file_name, " にテレメトリーレコードがありません"),
    }
}

/// The message shown when one record of a recording cannot be read.
pub fn failed_to_read_record(locale: Locale, record: usize, file_name: &str, error: &str) -> (r: String)
    ensures
        r@ == (match locale {
            Locale::English => "Failed to read record "@ + decimal(record as nat) + " from "@
                + file_name@ + ": "@ + error@,
            Locale::Japanese => file_name@ + " のレコード "@ + decimal(record as nat)
                + " を読み取れませんでした: "@ + error@,
        }),
{
    let n = usize_to_string(record);
    match locale {
        Locale::English => {
            let s = join3("Failed to read record ", n.as_str(), " from ");
            concat_str(concat_str(concat_str(s, file_name), ": "), error)
        },
        Locale::Japanese => {
            let s = join3(file_name, " のレコード ", n.as_str());
            concat_str(concat_str(s, " を読み取れませんでした: "), error)
        },
    }
}

/// The message shown when a record holds a non-finite value.
pub fn non_finite_record(locale: Locale, record: usize, file_name: &str) -> (r: String)
    ensures
        r@ == (match locale {
            Locale::English => "Record "@ + decimal(record as nat) + " in "@ + file_name@
                + " contains a non-finite value"@,
            Locale::Japanese => file_name@ + " のレコード "@ + decimal(record as nat)
                + " に非有限値が含まれています"@,
        }),
{
    let n = usize_to_string(record);
    match locale {
        Locale::English => {
            let s = join3("Record ", n.as_str(), " in ");
            concat_str(concat_str(s, file_name), " contains a non-finite value")
        },
        Locale::Japanese => {
            let s = join3(file_name, " のレコード ", n.as_str());
            concat_str(s, " に非有限値が含まれています")
        },
    }
}

/// The message shown when the last frame of a recording cannot be read.
pub fn failed_to_read_last_frame(locale: Locale, file_name: &str, error: &str) -> (r: String)
    ensures
        r@ == (match locale {
            Locale::English => "Failed to read the last frame from "@ + file_name@ + ": "@ + error@,
            Locale::Japanese => file_name@ + " の最終フレームを読み取れませんでした: "@ + error@,
        }),
{
    match locale {
        Locale::English => concat_str(join3("Failed to read the last frame from ", file_name, ": "), error),
        Locale::Japanese => join3(file_name, " の最終フレームを読み取れませんでした: ", error),
    }
}

/// A setup word in Japanese, or the word itself when it is not known.
pub open spec fn translated_word(word: Seq<char>) -> Seq<char> {
    match setup_word(word) {
        Some(t) => t,
        None => word,
    }
}

/// The label of a setup key in `locale`: a known phrase is translated whole,
/// otherwise each word is translated and the words are joined with "・".
pub open spec fn setup_label_text(locale: Locale, label: Seq<char>) -> Seq<char> {
    match locale {
        Locale::English => label,
        Locale::Japanese => match setup_phrase(label) {
            Some(t) => t,
            None => join(words(label).map_values(|w: Seq<char>| translated_word(w)), "・"@),
        },
    }
}

/// Translates a human-readable label derived from an iRacing `CarSetup` YAML key.
///
/// iRacing can add car-specific keys that are not known at compile time. Exact
/// phrases cover the common UI vocabulary while the word-by-word fallback also
/// gives new compound keys a useful Japanese label.
pub fn setup_label_for(locale: Locale, label: &str) -> (r: String)
    ensures
        r@ == setup_label_text(locale, label@),
{
    if let Locale::English = locale {
        return to_owned_string(label);
    }
    if let Some(translated) = japanese_setup_phrase(label) {
        return to_owned_string(translated);
    }
    let ws = split_words(label);
    let mut translated: Vec<String> = Vec::new();
    let mut i: usize = 0;
    while i < ws.len()
        invariant
            i <= ws@.len(),
            string_views(ws@) == words(label@),
            string_views(translated@) == string_views(ws@).take(i as int).map_values(
                |w: Seq<char>| translated_word(w),
            ),
        decreases ws@.len() - i,
    {
        let word = match japanese_setup_word(ws[i].as_str()) {
            Some(t) => to_owned_string(t),
            None => ws[i].clone(),
        };
        assert(word@ == translated_word(ws@[i as int]@));
        let ghost prev = translated@;
        let ghost wv = word@;
        translated.push(word);
        assert(string_views(translated@) =~= string_views(prev).push(wv));
        assert(string_views(ws@).take(i + 1) =~= string_views(ws@).take(i as int).push(ws@[i as int]@));
        i = i + 1;
        assert(string_views(translated@) =~= string_views(ws@).take(i as int).map_values(
            |w: Seq<char>| translated_word(w),
        ));
    }
    assert(string_views(ws@).take(ws@.len() as int) =~= string_views(ws@));
    join_strings(translated.as_slice(), "・")
}

} // verus!

verus! {

/// The Japanese form of a known setup value, given in ASCII lower case.
pub open spec fn value_word(lower: Seq<char>) -> Option<Seq<char>> {
    if lower == "dry"@ {
        Some("ドライ"@)
    } else if lower == "wet"@ {
        Some("ウェット"@)
    } else if lower == "soft"@ {
        Some("ソフト"@)
    } else if lower == "medium"@ {
        Some("ミディアム"@)
    } else if lower == "hard"@ {
        Some("ハード"@)
    } else if lower == "disk"@ {
        Some("ディスク"@)
    } else if lower == "garage"@ {
        Some("ガレージ"@)
    } else if lower == "delivery"@ {
        Some("デリバリー"@)
    } else if lower == "race"@ {
        Some("レース"@)
    } else if lower == "fixed"@ {
        Some("固定"@)
    } else if lower == "open"@ {
        Some("オープン"@)
    } else if lower == "enabled"@ || lower == "on"@ {
        Some("オン"@)
    } else if lower == "disabled"@ || lower == "off"@ {
        Some("オフ"@)
    } else {
        None
    }
}

fn japanese_value_word(lower: &str) -> (r: Option<&'static str>)
    ensures
        match r {
            Some(t) => value_word(lower@) == Some(t@),
            None => value_word(lower@) is None,
        },
{
    if str_eq(lower, "dry") {
        Some("ドライ")
    } else if str_eq(lower, "wet") {
        Some("ウェット")
    } else if str_eq(lower, "soft") {
        Some("ソフト")
    } else if str_eq(lower, "medium") {
        Some("ミディアム")
    } else if str_eq(lower, "hard") {
        Some("ハード")
    } else if str_eq(lower, "disk") {
        Some("ディスク")
    } else if str_eq(lower, "garage") {
        Some("ガレージ")
    } else if str_eq(lower, "delivery") {
        Some("デリバリー")
    } else if str_eq(lower, "race") {
        Some("レース")
    } else if str_eq(lower, "fixed") {
        Some("固定")
    } else if str_eq(lower, "open") {
        Some("オープン")
    } else if str_eq(lower, "enabled") || str_eq(lower, "on") {
        Some("オン")
    } else if str_eq(lower, "disabled") || str_eq(lower, "off") {
        Some("オフ")
    } else {
        None
    }
}

/// `t` without its suffix `p`, followed by `with`.
pub open spec fn swap_suffix(t: Seq<char>, p: Seq<char>, with: Seq<char>) -> Seq<char> {
    t.take(t.len() - p.len()) + with
}

/// The display form of a setup value in `locale`. In Japanese, a race page
/// number, the delivery marker, a handful of known words and click and degree
/// units are translated; anything else is kept as it is.
pub open spec fn setup_value_text(locale: Locale, value: Seq<char>) -> Seq<char> {
    match locale {
        Locale::English => value,
        Locale::Japanese => {
            let t = trim(value);
            if starts_with(t, "Race "@) {
                "レース "@ + t.skip("Race "@.len() as int)
            } else if contains_seq(t, "(Delivery)"@) {
                replace_all(value, "(Delivery)"@, "(デリバリー)"@)
            } else {
                match value_word(t.map_values(|c: char| ascii_lower(c))) {
                    Some(w) => w,
                    None => if ends_with(t, " clicks"@) {
                        swap_suffix(t, " clicks"@, " クリック"@)
                    } else if ends_with(t, " click"@) {
                        swap_suffix(t, " click"@, " クリック"@)
                    } else if ends_with(t, " deg"@) {
                        swap_suffix(t, " deg"@, " 度"@)
                    } else {
                        value
                    },
                }
            }
        },
    }
}

fn replace_suffix(cs: &Vec<char>, suffix: &Vec<char>, with: &str) -> (r: String)
    requires
        ends_with(cs@, suffix@),
    ensures
        r@ == swap_suffix(cs@, suffix@, with@),
{
    let head = chars_range(cs, 0, cs.len() - suffix.len());
    assert(head@ =~= cs@.take(cs@.len() - suffix@.len()));
    concat_str(string_from_chars(head.as_slice()), with)
}

/// Translates a value published in an iRacing `CarSetup` section.
pub fn setup_value_for(locale: Locale, value: &str) -> (r: String)
    ensures
        r@ == setup_value_text(locale, value@),
{
    if let Locale::English = locale {
        return to_owned_string(value);
    }
    let trimmed = str_trim(value);
    let cs = chars_of(trimmed);
    let race = chars_of("Race ");
    if has_prefix(&cs, &race) {
        let page = chars_range(&cs, race.len(), cs.len());
        assert(page@ =~= cs@.skip("Race "@.len() as int));
        return concat_str(to_owned_string("レース "), string_from_chars(page.as_slice()).as_str());
    }
    let delivery = chars_of("(Delivery)");
    if find_seq(&cs, &delivery) {
        proof {
            reveal_strlit("(Delivery)");
        }
        return replace_str(value, "(Delivery)", "(デリバリー)");
    }
    let lower = string_from_chars(ascii_lowercase_chars(&cs).as_slice());
    if let Some(word) = japanese_value_word(lower.as_str()) {
        return to_owned_string(word);
    }
    let clicks = chars_of(" clicks");
    if has_suffix(&cs, &clicks) {
        return replace_suffix(&cs, &clicks, " クリック");
    }
    let click = chars_of(" click");
    if has_suffix(&cs, &click) {
        return replace_suffix(&cs, &click, " クリック");
    }
    let deg = chars_of(" deg");
    if has_suffix(&cs, &deg) {
        return replace_suffix(&cs, &deg, " 度");
    }
    to_owned_string(value)
}


/// In Japanese, a value whose text is a number followed by ` deg` becomes
/// that number followed by ` 度`, unless it is a race page or holds the
/// delivery marker: the degree unit is translated as a degree.
pub proof fn lemma_japanese_degrees(value: Seq<char>, number: Seq<char>)
    requires
        trim(value) == number + " deg"@,
        !starts_with(trim(value), "Race "@),
        !contains_seq(trim(value), "(Delivery)"@),
    ensures
        setup_value_text(Locale::Japanese, value) == number + " 度"@,
{
    reveal_strlit(" deg");
    reveal_strlit(" clicks");
    reveal_strlit(" click");
    reveal_strlit(" 度");
    let t = trim(value);
    let lower = t.map_values(|c: char| ascii_lower(c));
    assert(t.last() == 'g');
    assert(lower.last() == 'g');
    reveal_strlit("dry");
    reveal_strlit("wet");
    reveal_strlit("soft");
    reveal_strlit("medium");
    reveal_strlit("hard");
    reveal_strlit("disk");
    reveal_strlit("garage");
    reveal_strlit("delivery");
    reveal_strlit("race");
    reveal_strlit("fixed");
    reveal_strlit("open");
    reveal_strlit("enabled");
    reveal_strlit("on");
    reveal_strlit("disabled");
    reveal_strlit("off");
    assert(value_word(lower) is None);
    assert(ends_with(t, " deg"@)) by {
        assert(t.skip(t.len() - 4) =~= " deg"@);
    }
    assert(!ends_with(t, " clicks"@)) by {
        if ends_with(t, " clicks"@) {
            assert(t.skip(t.len() - 7)[6] == 's');
        }
    }
    assert(!ends_with(t, " click"@)) by {
        if ends_with(t, " click"@) {
            assert(t.skip(t.len() - 6)[5] == 'k');
        }
    }
    assert(t.take(t.len() - 4) =~= number);
}

/// In Japanese, a value whose text is a number followed by ` clicks` or
/// ` click` becomes that number followed by ` クリック`, unless it is a race
/// page or holds the delivery marker.
pub proof fn lemma_japanese_clicks(value: Seq<char>, number: Seq<char>, plural: bool)
    requires
        trim(value) == number + (if plural { " clicks"@ } else { " click"@ }),
        !starts_with(trim(value), "Race "@),
        !contains_seq(trim(value), "(Delivery)"@),
    ensures
        setup_value_text(Locale::Japanese, value) == number + " クリック"@,
{
    reveal_strlit(" clicks");
    reveal_strlit(" click");
    reveal_strlit(" クリック");
    let t = trim(value);
    let lower = t.map_values(|c: char| ascii_lower(c));
    let last = if plural { 's' } else { 'k' };
    assert(t.last() == last);
    assert(lower.last() == last);
    reveal_strlit("dry");
    reveal_strlit("wet");
    reveal_strlit("soft");
    reveal_strlit("medium");
    reveal_strlit("hard");
    reveal_strlit("disk");
    reveal_strlit("garage");
    reveal_strlit("delivery");
    reveal_strlit("race");
    reveal_strlit("fixed");
    reveal_strlit("open");
    reveal_strlit("enabled");
    reveal_strlit("on");
    reveal_strlit("disabled");
    reveal_strlit("off");
    assert(lower.len() >= 6);
    assert(value_word(lower) is None);
    if plural {
        assert(ends_with(t, " clicks"@)) by {
            assert(t.skip(t.len() - 7) =~= " clicks"@);
        }
        assert(t.take(t.len() - 7) =~= number);
    } else {
        assert(ends_with(t, " click"@)) by {
            assert(t.skip(t.len() - 6) =~= " click"@);
        }
        assert(!ends_with(t, " clicks"@)) by {
            if ends_with(t, " clicks"@) {
                assert(t.skip(t.len() - 7)[6] == 's');
            }
        }
        assert(t.take(t.len() - 6) =~= number);
    }
}
} // verus!
