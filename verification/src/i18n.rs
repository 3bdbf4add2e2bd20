//! Interface texts in the two supported languages.
use vstd::prelude::*;

use crate::text::{decimal, str_eq, u64_to_decimal};

verus! {

/// The two interface languages.
#[derive(Clone, Copy, Debug, PartialEq, Eq, Structural)]
pub enum Locale {
    ZhCn,
    EnUs,
}

impl Locale {
    /// The other language.
    pub open spec fn spec_toggle(self) -> Locale {
        match self {
            Locale::ZhCn => Locale::EnUs,
            Locale::EnUs => Locale::ZhCn,
        }
    }

    /// Switches to the other language.
    pub fn toggle(self) -> (r: Locale)
        ensures
            r == self.spec_toggle(),
    {
        match self {
            Locale::ZhCn => Locale::EnUs,
            Locale::EnUs => Locale::ZhCn,
        }
    }

    /// The label of the language switch: the name of the language it switches to.
    pub fn switch_label(self) -> (r: &'static str)
        ensures
            self == Locale::ZhCn ==> r@ == "EN"@,
            self == Locale::EnUs ==> r@ == "中"@,
    {
        match self {
            Locale::ZhCn => "EN",
            Locale::EnUs => "中",
        }
    }

    pub fn app_tagline(self) -> (r: &'static str)
        ensures
            self == Locale::ZhCn ==> r@ == "优雅的数据工作台，用于连接、查询与探索"@,
            self == Locale::EnUs ==> r@ == "Elegant data workspace for query, inspect and connect"@,
    {
        match self {
            Locale::ZhCn => "优雅的数据工作台，用于连接、查询与探索",
            Locale::EnUs => "Elegant data workspace for query, inspect and connect",
        }
    }

    pub fn grid_search_placeholder(self) -> (r: &'static str)
        ensures
            self == Locale::ZhCn ==> r@ == "筛选结果中的 234 行"@,
            self == Locale::EnUs ==> r@ == "Filter 234 rows in result set"@,
    {
        match self {
            Locale::ZhCn => "筛选结果中的 234 行",
            Locale::EnUs => "Filter 234 rows in result set",
        }
    }

    pub fn connection_name_placeholder(self) -> (r: &'static str)
        ensures
            self == Locale::ZhCn ==> r@ == "连接名称"@,
            self == Locale::EnUs ==> r@ == "Connection name"@,
    {
        match self {
            Locale::ZhCn => "连接名称",
            Locale::EnUs => "Connection name",
        }
    }

    pub fn connection_database_placeholder(self) -> (r: &'static str)
        ensures
            self == Locale::ZhCn ==> r@ == "数据库 / schema / db index"@,
            self == Locale::EnUs ==> r@ == "Database / schema / db index"@,
    {
        match self {
            Locale::ZhCn => "数据库 / schema / db index",
            Locale::EnUs => "Database / schema / db index",
        }
    }

    pub fn connection_username_placeholder(self) -> (r: &'static str)
        ensures
            self == Locale::ZhCn ==> r@ == "用户名"@,
            self == Locale::EnUs ==> r@ == "Username"@,
    {
        match self {
            Locale::ZhCn => "用户名",
            Locale::EnUs => "Username",
        }
    }

    pub fn connection_password_placeholder(self) -> (r: &'static str)
        ensures
            self == Locale::ZhCn ==> r@ == "密码"@,
            self == Locale::EnUs ==> r@ == "Password"@,
    {
        match self {
            Locale::ZhCn => "密码",
            Locale::EnUs => "Password",
        }
    }

    pub fn open_source_badge(self) -> (r: &'static str)
        ensures
            self == Locale::ZhCn ==> r@ == "MIT 开源免费"@,
            self == Locale::EnUs ==> r@ == "MIT Open Source"@,
    {
        match self {
            Locale::ZhCn => "MIT 开源免费",
            Locale::EnUs => "MIT Open Source",
        }
    }

    pub fn new_query(self) -> (r: &'static str)
        ensures
            self == Locale::ZhCn ==> r@ == "新建查询"@,
            self == Locale::EnUs ==> r@ == "New Query"@,
    {
        match self {
            Locale::ZhCn => "新建查询",
            Locale::EnUs => "New Query",
        }
    }

    pub fn add_connection(self) -> (r: &'static str)
        ensures
            self == Locale::ZhCn ==> r@ == "添加连接"@,
            self == Locale::EnUs ==> r@ == "Add Connection"@,
    {
        match self {
            Locale::ZhCn => "添加连接",
            Locale::EnUs => "Add Connection",
        }
    }

    pub fn export(self) -> (r: &'static str)
        ensures
            self == Locale::ZhCn ==> r@ == "社区版"@,
            self == Locale::EnUs ==> r@ == "Community"@,
    {
        match self {
            Locale::ZhCn => "社区版",
            Locale::EnUs => "Community",
        }
    }

    pub fn connections(self) -> (r: &'static str)
        ensures
            self == Locale::ZhCn ==> r@ == "连接"@,
            self == Locale::EnUs ==> r@ == "Connections"@,
    {
        match self {
            Locale::ZhCn => "连接",
            Locale::EnUs => "Connections",
        }
    }

    pub fn today(self) -> (r: &'static str)
        ensures
            self == Locale::ZhCn ==> r@ == "今日"@,
            self == Locale::EnUs ==> r@ == "Today"@,
    {
        match self {
            Locale::ZhCn => "今日",
            Locale::EnUs => "Today",
        }
    }

    pub fn sync_healthy(self) -> (r: &'static str)
        ensures
            self == Locale::ZhCn ==> r@ == "已连接后从真实数据库读取"@,
            self == Locale::EnUs ==> r@ == "Reads directly from live database sources"@,
    {
        match self {
            Locale::ZhCn => "已连接后从真实数据库读取",
            Locale::EnUs => "Reads directly from live database sources",
        }
    }

    pub fn latency_hint(self) -> (r: &'static str)
        ensures
            self == Locale::ZhCn ==> r@ == "支持 MySQL、PostgreSQL、Redis、MongoDB、SQLite 驱动"@,
            self == Locale::EnUs ==> r@ == "Includes MySQL, PostgreSQL, Redis, MongoDB and SQLite drivers"@,
    {
        match self {
            Locale::ZhCn => "支持 MySQL、PostgreSQL、Redis、MongoDB、SQLite 驱动",
            Locale::EnUs => "Includes MySQL, PostgreSQL, Redis, MongoDB and SQLite drivers",
        }
    }

    pub fn create_connection(self) -> (r: &'static str)
        ensures
            self == Locale::ZhCn ==> r@ == "创建连接"@,
            self == Locale::EnUs ==> r@ == "Create Connection"@,
    {
        match self {
            Locale::ZhCn => "创建连接",
            Locale::EnUs => "Create Connection",
        }
    }

    pub fn database_explorer(self) -> (r: &'static str)
        ensures
            self == Locale::ZhCn ==> r@ == "数据库浏览器"@,
            self == Locale::EnUs ==> r@ == "Database Explorer"@,
    {
        match self {
            Locale::ZhCn => "数据库浏览器",
            Locale::EnUs => "Database Explorer",
        }
    }

    pub fn get_started(self) -> (r: &'static str)
        ensures
            self == Locale::ZhCn ==> r@ == "开始使用"@,
            self == Locale::EnUs ==> r@ == "Get Started"@,
    {
        match self {
            Locale::ZhCn => "开始使用",
            Locale::EnUs => "Get Started",
        }
    }

    pub fn first_workspace(self) -> (r: &'static str)
        ensures
            self == Locale::ZhCn ==> r@ == "建立你的第一个数据工作区"@,
            self == Locale::EnUs ==> r@ == "Build your first data workspace"@,
    {
        match self {
            Locale::ZhCn => "建立你的第一个数据工作区",
            Locale::EnUs => "Build your first data workspace",
        }
    }

    pub fn onboarding_intro(self) -> (r: &'static str)
        ensures
            self == Locale::ZhCn ==> r@ == "添加连接后，你可以立即浏览结构、编写 SQL，并在统一结果面板中查看输出。"@,
            self == Locale::EnUs ==> r@ == "Add a connection to browse schema, write SQL, and inspect output in one shared result view."@,
    {
        match self {
            Locale::ZhCn => "添加连接后，你可以立即浏览结构、编写 SQL，并在统一结果面板中查看输出。",
            Locale::EnUs => "Add a connection to browse schema, write SQL, and inspect output in one shared result view.",
        }
    }

    pub fn import_database(self) -> (r: &'static str)
        ensures
            self == Locale::ZhCn ==> r@ == "导入数据库"@,
            self == Locale::EnUs ==> r@ == "Import Database"@,
    {
        match self {
            Locale::ZhCn => "导入数据库",
            Locale::EnUs => "Import Database",
        }
    }

    pub fn version(self) -> (r: &'static str)
        ensures
            self == Locale::ZhCn ==> r@ == "版本"@,
            self == Locale::EnUs ==> r@ == "Version"@,
    {
        match self {
            Locale::ZhCn => "版本",
            Locale::EnUs => "Version",
        }
    }

    pub fn welcome_copy(self) -> (r: &'static str)
        ensures
            self == Locale::ZhCn ==> r@ == "完全开源免费，为多种数据库连接、探索与查询打造的现代工作台"@,
            self == Locale::EnUs ==> r@ == "A fully open-source and free workspace for connecting, exploring and querying across databases"@,
    {
        match self {
            Locale::ZhCn => "完全开源免费，为多种数据库连接、探索与查询打造的现代工作台",
            Locale::EnUs => "A fully open-source and free workspace for connecting, exploring and querying across databases",
        }
    }

    pub fn info_fast_setup_title(self) -> (r: &'static str)
        ensures
            self == Locale::ZhCn ==> r@ == "快速接入"@,
            self == Locale::EnUs ==> r@ == "Fast setup"@,
    {
        match self {
            Locale::ZhCn => "快速接入",
            Locale::EnUs => "Fast setup",
        }
    }

    pub fn info_fast_setup_body(self) -> (r: &'static str)
        ensures
            self == Locale::ZhCn ==> r@ == "支持导入 MySQL / PostgreSQL / Redis / MongoDB / SQLite"@,
            self == Locale::EnUs ==> r@ == "Supports importing MySQL / PostgreSQL / Redis / MongoDB / SQLite"@,
    {
        match self {
            Locale::ZhCn => "支持导入 MySQL / PostgreSQL / Redis / MongoDB / SQLite",
            Locale::EnUs => "Supports importing MySQL / PostgreSQL / Redis / MongoDB / SQLite",
        }
    }

    pub fn info_focused_workflow_title(self) -> (r: &'static str)
        ensures
            self == Locale::ZhCn ==> r@ == "无付费限制"@,
            self == Locale::EnUs ==> r@ == "No paywall"@,
    {
        match self {
            Locale::ZhCn => "无付费限制",
            Locale::EnUs => "No paywall",
        }
    }

    pub fn info_focused_workflow_body(self) -> (r: &'static str)
        ensures
            self == Locale::ZhCn ==> r@ == "默认提供完整界面能力，不区分免费版与专业版"@,
            self == Locale::EnUs ==> r@ == "The full interface ships without a separate free tier or pro tier"@,
    {
        match self {
            Locale::ZhCn => "默认提供完整界面能力，不区分免费版与专业版",
            Locale::EnUs => "The full interface ships without a separate free tier or pro tier",
        }
    }

    pub fn create_connection_title(self) -> (r: &'static str)
        ensures
            self == Locale::ZhCn ==> r@ == "创建连接"@,
            self == Locale::EnUs ==> r@ == "Create Connection"@,
    {
        match self {
            Locale::ZhCn => "创建连接",
            Locale::EnUs => "Create Connection",
        }
    }

    pub fn import_database_title(self) -> (r: &'static str)
        ensures
            self == Locale::ZhCn ==> r@ == "导入数据库"@,
            self == Locale::EnUs ==> r@ == "Import Database"@,
    {
        match self {
            Locale::ZhCn => "导入数据库",
            Locale::EnUs => "Import Database",
        }
    }

    pub fn close(self) -> (r: &'static str)
        ensures
            self == Locale::ZhCn ==> r@ == "关闭"@,
            self == Locale::EnUs ==> r@ == "Close"@,
    {
        match self {
            Locale::ZhCn => "关闭",
            Locale::EnUs => "Close",
        }
    }

    pub fn connection_preset(self) -> (r: &'static str)
        ensures
            self == Locale::ZhCn ==> r@ == "连接预设"@,
            self == Locale::EnUs ==> r@ == "Connection preset"@,
    {
        match self {
            Locale::ZhCn => "连接预设",
            Locale::EnUs => "Connection preset",
        }
    }

    pub fn preset_hint(self) -> (r: &'static str)
        ensures
            self == Locale::ZhCn ==> r@ == "切换数据库类型会自动填充默认端口"@,
            self == Locale::EnUs ==> r@ == "Switching database type fills the default port automatically"@,
    {
        match self {
            Locale::ZhCn => "切换数据库类型会自动填充默认端口",
            Locale::EnUs => "Switching database type fills the default port automatically",
        }
    }

    pub fn name(self) -> (r: &'static str)
        ensures
            self == Locale::ZhCn ==> r@ == "名称"@,
            self == Locale::EnUs ==> r@ == "Name"@,
    {
        match self {
            Locale::ZhCn => "名称",
            Locale::EnUs => "Name",
        }
    }

    pub fn host(self) -> (r: &'static str)
        ensures
            self == Locale::ZhCn ==> r@ == "主机"@,
            self == Locale::EnUs ==> r@ == "Host"@,
    {
        match self {
            Locale::ZhCn => "主机",
            Locale::EnUs => "Host",
        }
    }

    pub fn port(self) -> (r: &'static str)
        ensures
            self == Locale::ZhCn ==> r@ == "端口"@,
            self == Locale::EnUs ==> r@ == "Port"@,
    {
        match self {
            Locale::ZhCn => "端口",
            Locale::EnUs => "Port",
        }
    }

    pub fn database(self) -> (r: &'static str)
        ensures
            self == Locale::ZhCn ==> r@ == "数据库"@,
            self == Locale::EnUs ==> r@ == "Database"@,
    {
        match self {
            Locale::ZhCn => "数据库",
            Locale::EnUs => "Database",
        }
    }

    pub fn database_file(self) -> (r: &'static str)
        ensures
            self == Locale::ZhCn ==> r@ == "数据库文件"@,
            self == Locale::EnUs ==> r@ == "Database file"@,
    {
        match self {
            Locale::ZhCn => "数据库文件",
            Locale::EnUs => "Database file",
        }
    }

    pub fn tag_or_note(self) -> (r: &'static str)
        ensures
            self == Locale::ZhCn ==> r@ == "标签 / 备注"@,
            self == Locale::EnUs ==> r@ == "Tag / note"@,
    {
        match self {
            Locale::ZhCn => "标签 / 备注",
            Locale::EnUs => "Tag / note",
        }
    }

    pub fn username(self) -> (r: &'static str)
        ensures
            self == Locale::ZhCn ==> r@ == "用户名"@,
            self == Locale::EnUs ==> r@ == "Username"@,
    {
        match self {
            Locale::ZhCn => "用户名",
            Locale::EnUs => "Username",
        }
    }

    pub fn password(self) -> (r: &'static str)
        ensures
            self == Locale::ZhCn ==> r@ == "密码"@,
            self == Locale::EnUs ==> r@ == "Password"@,
    {
        match self {
            Locale::ZhCn => "密码",
            Locale::EnUs => "Password",
        }
    }

    pub fn supported_connection_types(self) -> (r: &'static str)
        ensures
            self == Locale::ZhCn ==> r@ == "支持的连接类型"@,
            self == Locale::EnUs ==> r@ == "Supported connection types"@,
    {
        match self {
            Locale::ZhCn => "支持的连接类型",
            Locale::EnUs => "Supported connection types",
        }
    }

    pub fn cancel(self) -> (r: &'static str)
        ensures
            self == Locale::ZhCn ==> r@ == "取消"@,
            self == Locale::EnUs ==> r@ == "Cancel"@,
    {
        match self {
            Locale::ZhCn => "取消",
            Locale::EnUs => "Cancel",
        }
    }

    pub fn save_connection(self) -> (r: &'static str)
        ensures
            self == Locale::ZhCn ==> r@ == "保存连接"@,
            self == Locale::EnUs ==> r@ == "Save Connection"@,
    {
        match self {
            Locale::ZhCn => "保存连接",
            Locale::EnUs => "Save Connection",
        }
    }

    pub fn run(self) -> (r: &'static str)
        ensures
            self == Locale::ZhCn ==> r@ == "运行"@,
            self == Locale::EnUs ==> r@ == "Run"@,
    {
        match self {
            Locale::ZhCn => "运行",
            Locale::EnUs => "Run",
        }
    }

    pub fn format(self) -> (r: &'static str)
        ensures
            self == Locale::ZhCn ==> r@ == "格式化"@,
            self == Locale::EnUs ==> r@ == "Format"@,
    {
        match self {
            Locale::ZhCn => "格式化",
            Locale::EnUs => "Format",
        }
    }

    pub fn explain(self) -> (r: &'static str)
        ensures
            self == Locale::ZhCn ==> r@ == "解析"@,
            self == Locale::EnUs ==> r@ == "Explain"@,
    {
        match self {
            Locale::ZhCn => "解析",
            Locale::EnUs => "Explain",
        }
    }

    pub fn connected(self) -> (r: &'static str)
        ensures
            self == Locale::ZhCn ==> r@ == "已连接"@,
            self == Locale::EnUs ==> r@ == "Connected"@,
    {
        match self {
            Locale::ZhCn => "已连接",
            Locale::EnUs => "Connected",
        }
    }

    pub fn execute_hint(self) -> (r: &'static str)
        ensures
            self == Locale::ZhCn ==> r@ == "Ctrl+Enter 执行当前选择"@,
            self == Locale::EnUs ==> r@ == "Ctrl+Enter to execute selection"@,
    {
        match self {
            Locale::ZhCn => "Ctrl+Enter 执行当前选择",
            Locale::EnUs => "Ctrl+Enter to execute selection",
        }
    }

    pub fn live_draft(self) -> (r: &'static str)
        ensures
            self == Locale::ZhCn ==> r@ == "实时草稿"@,
            self == Locale::EnUs ==> r@ == "Live draft"@,
    {
        match self {
            Locale::ZhCn => "实时草稿",
            Locale::EnUs => "Live draft",
        }
    }

    pub fn result_stats(self) -> (r: &'static str)
        ensures
            self == Locale::ZhCn ==> r@ == "数据库源返回"@,
            self == Locale::EnUs ==> r@ == "Returned from source"@,
    {
        match self {
            Locale::ZhCn => "数据库源返回",
            Locale::EnUs => "Returned from source",
        }
    }

    pub fn live_source(self) -> (r: &'static str)
        ensures
            self == Locale::ZhCn ==> r@ == "实时数据源"@,
            self == Locale::EnUs ==> r@ == "Live source"@,
    {
        match self {
            Locale::ZhCn => "实时数据源",
            Locale::EnUs => "Live source",
        }
    }

    pub fn no_data(self) -> (r: &'static str)
        ensures
            self == Locale::ZhCn ==> r@ == "当前数据源没有可展示的数据"@,
            self == Locale::EnUs ==> r@ == "No data available for the current source"@,
    {
        match self {
            Locale::ZhCn => "当前数据源没有可展示的数据",
            Locale::EnUs => "No data available for the current source",
        }
    }

    pub fn load_failed(self) -> (r: &'static str)
        ensures
            self == Locale::ZhCn ==> r@ == "读取失败"@,
            self == Locale::EnUs ==> r@ == "Load failed"@,
    {
        match self {
            Locale::ZhCn => "读取失败",
            Locale::EnUs => "Load failed",
        }
    }

    pub fn data_tab(self) -> (r: &'static str)
        ensures
            self == Locale::ZhCn ==> r@ == "数据"@,
            self == Locale::EnUs ==> r@ == "Data"@,
    {
        match self {
            Locale::ZhCn => "数据",
            Locale::EnUs => "Data",
        }
    }

    pub fn structure_tab(self) -> (r: &'static str)
        ensures
            self == Locale::ZhCn ==> r@ == "结构"@,
            self == Locale::EnUs ==> r@ == "Structure"@,
    {
        match self {
            Locale::ZhCn => "结构",
            Locale::EnUs => "Structure",
        }
    }

    pub fn console_tab(self) -> (r: &'static str)
        ensures
            self == Locale::ZhCn ==> r@ == "控制台"@,
            self == Locale::EnUs ==> r@ == "Console"@,
    {
        match self {
            Locale::ZhCn => "控制台",
            Locale::EnUs => "Console",
        }
    }

    pub open spec fn sqlite_file_text(self) -> Seq<char> {
        match self {
            Locale::ZhCn => "本地数据库文件"@,
            Locale::EnUs => "Local database file"@,
        }
    }

    pub fn sqlite_file(self) -> (r: &'static str)
        ensures
            r@ == self.sqlite_file_text(),
    {
        match self {
            Locale::ZhCn => "本地数据库文件",
            Locale::EnUs => "Local database file",
        }
    }

    pub open spec fn memory_cache_text(self) -> Seq<char> {
        match self {
            Locale::ZhCn => "内存缓存"@,
            Locale::EnUs => "In-memory cache"@,
        }
    }

    pub fn memory_cache(self) -> (r: &'static str)
        ensures
            r@ == self.memory_cache_text(),
    {
        match self {
            Locale::ZhCn => "内存缓存",
            Locale::EnUs => "In-memory cache",
        }
    }

    pub open spec fn configured_endpoints_text(self, count: nat) -> Seq<char> {
        match self {
            Locale::ZhCn => "已配置 "@ + decimal(count) + " 个端点，随时可用"@,
            Locale::EnUs => decimal(count) + " configured endpoints ready to use"@,
        }
    }

    /// How many connection endpoints are configured.
    pub fn configured_endpoints(self, count: usize) -> (r: String)
        ensures
            r@ == self.configured_endpoints_text(count as nat),
    {
        let digits = u64_to_decimal(count as u64);
        match self {
            Locale::ZhCn => {
                let mut s = String::from_str("已配置 ");
                s.append(digits.as_str());
                s.append(" 个端点，随时可用");
                s
            },
            Locale::EnUs => {
                let mut s = digits;
                s.append(" configured endpoints ready to use");
                s
            },
        }
    }

    /// The display name of a schema group: given in Chinese for the known
    /// groups, otherwise the label itself.
    pub open spec fn schema_item_text(self, label: Seq<char>) -> Seq<char> {
        if self == Locale::ZhCn && label == "Tables"@ {
            "表"@
        } else if self == Locale::ZhCn && label == "Views"@ {
            "视图"@
        } else if self == Locale::ZhCn && label == "Functions"@ {
            "函数"@
        } else if self == Locale::ZhCn && label == "Triggers"@ {
            "触发器"@
        } else if self == Locale::ZhCn && label == "Users"@ {
            "用户"@
        } else if self == Locale::ZhCn && label == "Migrations"@ {
            "迁移"@
        } else if self == Locale::ZhCn && label == "Favorites"@ {
            "收藏"@
        } else if self == Locale::ZhCn && label == "Pins"@ {
            "置顶"@
        } else {
            label
        }
    }

    pub fn schema_item(self, label: &str) -> (r: String)
        ensures
            r@ == self.schema_item_text(label@),
    {
        match self {
            Locale::ZhCn => if str_eq(label, "Tables") {
                String::from_str("表")
            } else if str_eq(label, "Views") {
                String::from_str("视图")
            } else if str_eq(label, "Functions") {
                String::from_str("函数")
            } else if str_eq(label, "Triggers") {
                String::from_str("触发器")
            } else if str_eq(label, "Users") {
                String::from_str("用户")
            } else if str_eq(label, "Migrations") {
                String::from_str("迁移")
            } else if str_eq(label, "Favorites") {
                String::from_str("收藏")
            } else if str_eq(label, "Pins") {
                String::from_str("置顶")
            } else {
                label.to_owned()
            },
            Locale::EnUs => label.to_owned(),
        }
    }

    pub open spec fn configure_connection_text(self, kind: Seq<char>) -> Seq<char> {
        match self {
            Locale::ZhCn => "配置 "@ + kind + " 连接并保存到你的工作区"@,
            Locale::EnUs => "Configure a "@ + kind + " connection and save it to your workspace"@,
        }
    }

    /// The subtitle of the connection form for a connection type.
    pub fn configure_connection(self, kind: &str) -> (r: String)
        ensures
            r@ == self.configure_connection_text(kind@),
    {
        match self {
            Locale::ZhCn => {
                let mut s = String::from_str("配置 ");
                s.append(kind);
                s.append(" 连接并保存到你的工作区");
                s
            },
            Locale::EnUs => {
                let mut s = String::from_str("Configure a ");
                s.append(kind);
                s.append(" connection and save it to your workspace");
                s
            },
        }
    }

    pub open spec fn endpoint_label_text(self, kind: Seq<char>) -> Seq<char> {
        match self {
            Locale::ZhCn => kind + " 端点"@,
            Locale::EnUs => kind + " endpoint"@,
        }
    }

    /// Names an endpoint of a connection type.
    pub fn endpoint_label(self, kind: &str) -> (r: String)
        ensures
            r@ == self.endpoint_label_text(kind@),
    {
        let mut s = kind.to_owned();
        match self {
            Locale::ZhCn => s.append(" 端点"),
            Locale::EnUs => s.append(" endpoint"),
        }
        s
    }
}

/// Switching the language twice gives back the language one started with, and
/// a switch always changes it.
pub proof fn toggle_is_an_involution(locale: Locale)
    ensures
        locale.spec_toggle().spec_toggle() == locale,
        locale.spec_toggle() != locale,
{
}

} // verus!
