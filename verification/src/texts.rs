//! The texts of the interface, in English and in Simplified Chinese, by key.
use vstd::prelude::*;

use crate::text::str_eq;

verus! {

/// The English text for `key`; empty for a key that has none.
pub open spec fn english_text(key: Seq<char>) -> Seq<char> {
    if key == "new"@ {
        "New"@
    } else if key == "list"@ {
        "List"@
    } else if key == "info"@ {
        "Info"@
    } else if key == "navigation"@ {
        "Navigation"@
    } else if key == "language"@ {
        "Language"@
    } else if key == "english"@ {
        "English"@
    } else if key == "simplified_chinese"@ {
        "简体中文"@
    } else if key == "theme_light"@ {
        "Switch to light theme"@
    } else if key == "theme_dark"@ {
        "Switch to dark theme"@
    } else if key == "expiration"@ {
        "Expiration"@
    } else if key == "expire_after"@ {
        "Expire after"@
    } else if key == "one_minute"@ {
        "1 minute"@
    } else if key == "ten_minutes"@ {
        "10 minutes"@
    } else if key == "one_hour"@ {
        "1 hour"@
    } else if key == "twenty_four_hours"@ {
        "24 hours"@
    } else if key == "three_days"@ {
        "3 days"@
    } else if key == "one_week"@ {
        "1 week"@
    } else if key == "never_expire"@ {
        "Never Expire"@
    } else if key == "burn_after"@ {
        "Burn After"@
    } else if key == "burn_after_group"@ {
        "Burn after"@
    } else if key == "first_read"@ {
        "First Read"@
    } else if key == "tenth_read"@ {
        "10th Read"@
    } else if key == "hundredth_read"@ {
        "100th Read"@
    } else if key == "thousandth_read"@ {
        "1000th Read"@
    } else if key == "ten_thousandth_read"@ {
        "10000th Read"@
    } else if key == "no_limit"@ {
        "No Limit"@
    } else if key == "syntax"@ {
        "Syntax"@
    } else if key == "none"@ {
        "None"@
    } else if key == "source_code"@ {
        "Source Code"@
    } else if key == "descriptors"@ {
        "Descriptors"@
    } else if key == "bash_shell"@ {
        "Bash Shell"@
    } else if key == "delphi"@ {
        "Delphi"@
    } else if key == "javascript"@ {
        "JavaScript"@
    } else if key == "editable"@ {
        "Editable"@
    } else if key == "private"@ {
        "Private"@
    } else if key == "other"@ {
        "Other"@
    } else if key == "content"@ {
        "Content"@
    } else if key == "custom_key"@ {
        "Custom Key (optional)"@
    } else if key == "custom_key_hint"@ {
        "Use a-z, 0-9, hyphens, and underscores; 3-64 characters"@
    } else if key == "custom_key_empty"@ {
        "Leave blank to generate a Key automatically"@
    } else if key == "custom_key_valid"@ {
        "Key format is valid"@
    } else if key == "custom_key_invalid"@ {
        "Key format is invalid"@
    } else if key == "characters"@ {
        "characters"@
    } else if key == "select_or_drop_file"@ {
        "Select or drop file attachment"@
    } else if key == "drop_file"@ {
        "Drop your file here"@
    } else if key == "drop_replace_file"@ {
        "Drop your file here to replace"@
    } else if key == "attached"@ {
        "Attached: "@
    } else if key == "save"@ {
        "Save"@
    } else if key == "saving"@ {
        "Saving…"@
    } else if key == "clear_file"@ {
        "Remove file"@
    } else if key == "no_file"@ {
        "No file selected"@
    } else if key == "read_only"@ {
        "Read Only"@
    } else if key == "copy_text"@ {
        "Copy Text"@
    } else if key == "copy_redirect"@ {
        "Copy Redirect"@
    } else if key == "raw_text_content"@ {
        "Raw Text Content"@
    } else if key == "qr"@ {
        "QR"@
    } else if key == "edit"@ {
        "Edit"@
    } else if key == "remove"@ {
        "Remove"@
    } else if key == "copy_url"@ {
        "Copy URL"@
    } else if key == "copied"@ {
        "Copied"@
    } else if key == "download_attached_file"@ {
        "Download attached file: "@
    } else if key == "back_to_pasta"@ {
        "Back to Pasta"@
    } else if key == "pastas"@ {
        "Pastas"@
    } else if key == "no_pastas"@ {
        "No pastas yet."@
    } else if key == "create_one"@ {
        "Create one"@
    } else if key == "here"@ {
        "here"@
    } else if key == "key"@ {
        "Key"@
    } else if key == "raw"@ {
        "Raw"@
    } else if key == "file"@ {
        "File"@
    } else if key == "never"@ {
        "Never"@
    } else if key == "url_redirects"@ {
        "URL Redirects"@
    } else if key == "created"@ {
        "Created"@
    } else if key == "open"@ {
        "Open"@
    } else if key == "copy"@ {
        "Copy"@
    } else if key == "welcome"@ {
        "Welcome to MicroBin"@
    } else if key == "links"@ {
        "Links"@
    } else if key == "documentation_help"@ {
        "Documentation and Help"@
    } else if key == "feedback"@ {
        "Feedback"@
    } else if key == "donate_sponsor"@ {
        "Donate and Sponsor"@
    } else if key == "version"@ {
        "Version"@
    } else if key == "status"@ {
        "Status"@
    } else if key == "pasta_count"@ {
        "Pastas"@
    } else if key == "actions"@ {
        "Actions"@
    } else if key == "messages"@ {
        "Messages"@
    } else if key == "not_found"@ {
        "Not Found"@
    } else if key == "go_home"@ {
        "Go Home"@
    } else if key == "just_now"@ {
        "just now"@
    } else if key == "warning_no_public_url"@ {
        "Warning: No public URL set with --public-path parameter. QR code and URL Copying functions have been disabled"@
    } else if key == "pasta_not_found"@ {
        "Pasta not found! :-("@
    } else if key == "invalid_login"@ {
        "Invalid login details."@
    } else if key == "invalid_locale"@ {
        "Unsupported language."@
    } else if key == "invalid_key"@ {
        "Key must be 3-64 lowercase letters, numbers, hyphens, or underscores."@
    } else if key == "duplicate_key"@ {
        "That key already exists. Please choose another key."@
    } else if key == "confirm_remove"@ {
        "Are you sure you want to remove this pasta?"@
    } else {
        Seq::empty()
    }
}

/// The Simplified Chinese text for `key`; the English one for a key that has no translation.
pub open spec fn chinese_text(key: Seq<char>) -> Seq<char> {
    if key == "new"@ {
        "新建"@
    } else if key == "list"@ {
        "列表"@
    } else if key == "info"@ {
        "信息"@
    } else if key == "navigation"@ {
        "导航"@
    } else if key == "language"@ {
        "语言"@
    } else if key == "english"@ {
        "English"@
    } else if key == "simplified_chinese"@ {
        "简体中文"@
    } else if key == "theme_light"@ {
        "切换到浅色主题"@
    } else if key == "theme_dark"@ {
        "切换到深色主题"@
    } else if key == "expiration"@ {
        "过期时间"@
    } else if key == "expire_after"@ {
        "过期于"@
    } else if key == "one_minute"@ {
        "1 分钟"@
    } else if key == "ten_minutes"@ {
        "10 分钟"@
    } else if key == "one_hour"@ {
        "1 小时"@
    } else if key == "twenty_four_hours"@ {
        "24 小时"@
    } else if key == "three_days"@ {
        "3 天"@
    } else if key == "one_week"@ {
        "1 周"@
    } else if key == "never_expire"@ {
        "永不过期"@
    } else if key == "burn_after"@ {
        "阅读后销毁"@
    } else if key == "burn_after_group"@ {
        "销毁于第"@
    } else if key == "first_read"@ {
        "首次阅读"@
    } else if key == "tenth_read"@ {
        "第 10 次阅读"@
    } else if key == "hundredth_read"@ {
        "第 100 次阅读"@
    } else if key == "thousandth_read"@ {
        "第 1000 次阅读"@
    } else if key == "ten_thousandth_read"@ {
        "第 10000 次阅读"@
    } else if key == "no_limit"@ {
        "不限次数"@
    } else if key == "syntax"@ {
        "语法"@
    } else if key == "none"@ {
        "无"@
    } else if key == "source_code"@ {
        "源代码"@
    } else if key == "descriptors"@ {
        "描述文件"@
    } else if key == "bash_shell"@ {
        "Bash Shell"@
    } else if key == "delphi"@ {
        "Delphi"@
    } else if key == "javascript"@ {
        "JavaScript"@
    } else if key == "editable"@ {
        "可编辑"@
    } else if key == "private"@ {
        "私有"@
    } else if key == "other"@ {
        "其他"@
    } else if key == "content"@ {
        "内容"@
    } else if key == "custom_key"@ {
        "自定义 Key（可选）"@
    } else if key == "custom_key_hint"@ {
        "仅允许 a-z、0-9、短横线和下划线，长度 3-64"@
    } else if key == "custom_key_empty"@ {
        "留空将自动生成 Key"@
    } else if key == "custom_key_valid"@ {
        "Key 格式有效"@
    } else if key == "custom_key_invalid"@ {
        "Key 格式无效"@
    } else if key == "characters"@ {
        "个字符"@
    } else if key == "select_or_drop_file"@ {
        "选择或拖放文件附件"@
    } else if key == "drop_file"@ {
        "将文件拖放到这里"@
    } else if key == "drop_replace_file"@ {
        "将文件拖放到这里以替换"@
    } else if key == "attached"@ {
        "已附加："@
    } else if key == "save"@ {
        "保存"@
    } else if key == "saving"@ {
        "保存中…"@
    } else if key == "clear_file"@ {
        "移除文件"@
    } else if key == "no_file"@ {
        "未选择文件"@
    } else if key == "read_only"@ {
        "只读"@
    } else if key == "copy_text"@ {
        "复制文本"@
    } else if key == "copy_redirect"@ {
        "复制重定向地址"@
    } else if key == "raw_text_content"@ {
        "原始文本内容"@
    } else if key == "qr"@ {
        "二维码"@
    } else if key == "edit"@ {
        "编辑"@
    } else if key == "remove"@ {
        "删除"@
    } else if key == "copy_url"@ {
        "复制 URL"@
    } else if key == "copied"@ {
        "已复制"@
    } else if key == "download_attached_file"@ {
        "下载附件："@
    } else if key == "back_to_pasta"@ {
        "返回 Pasta"@
    } else if key == "pastas"@ {
        "Pastas"@
    } else if key == "no_pastas"@ {
        "还没有 Pasta。"@
    } else if key == "create_one"@ {
        "创建一个"@
    } else if key == "here"@ {
        "这里"@
    } else if key == "key"@ {
        "Key"@
    } else if key == "raw"@ {
        "原始内容"@
    } else if key == "file"@ {
        "文件"@
    } else if key == "never"@ {
        "永不"@
    } else if key == "url_redirects"@ {
        "URL 重定向"@
    } else if key == "created"@ {
        "创建时间"@
    } else if key == "open"@ {
        "打开"@
    } else if key == "copy"@ {
        "复制"@
    } else if key == "welcome"@ {
        "欢迎使用 MicroBin"@
    } else if key == "links"@ {
        "链接"@
    } else if key == "documentation_help"@ {
        "文档与帮助"@
    } else if key == "feedback"@ {
        "反馈"@
    } else if key == "donate_sponsor"@ {
        "捐赠与赞助"@
    } else if key == "version"@ {
        "版本"@
    } else if key == "status"@ {
        "状态"@
    } else if key == "pasta_count"@ {
        "Pasta 数量"@
    } else if key == "actions"@ {
        "操作"@
    } else if key == "messages"@ {
        "消息"@
    } else if key == "not_found"@ {
        "未找到"@
    } else if key == "go_home"@ {
        "返回首页"@
    } else if key == "just_now"@ {
        "刚刚"@
    } else if key == "warning_no_public_url"@ {
        "警告：未通过 --public-path 参数设置公共 URL，二维码和复制 URL 功能已禁用"@
    } else if key == "pasta_not_found"@ {
        "未找到 Pasta！:-("@
    } else if key == "invalid_login"@ {
        "登录信息无效。"@
    } else if key == "invalid_locale"@ {
        "不支持的语言。"@
    } else if key == "invalid_key"@ {
        "Key 必须为 3-64 个小写字母、数字、短横线或下划线。"@
    } else if key == "duplicate_key"@ {
        "该 Key 已存在，请选择其他 Key。"@
    } else if key == "confirm_remove"@ {
        "确定要删除此 Pasta 吗？"@
    } else {
        english_text(key)
    }
}

/// Looks up the English text for `key`.
#[verifier::rlimit(50)]
pub(crate) fn english_text_of(key: &str) -> (r: &'static str)
    ensures
        r@ == english_text(key@),
{
    if str_eq(key, "new") {
        "New"
    } else if str_eq(key, "list") {
        "List"
    } else if str_eq(key, "info") {
        "Info"
    } else if str_eq(key, "navigation") {
        "Navigation"
    } else if str_eq(key, "language") {
        "Language"
    } else if str_eq(key, "english") {
        "English"
    } else if str_eq(key, "simplified_chinese") {
        "简体中文"
    } else if str_eq(key, "theme_light") {
        "Switch to light theme"
    } else if str_eq(key, "theme_dark") {
        "Switch to dark theme"
    } else if str_eq(key, "expiration") {
        "Expiration"
    } else if str_eq(key, "expire_after") {
        "Expire after"
    } else if str_eq(key, "one_minute") {
        "1 minute"
    } else if str_eq(key, "ten_minutes") {
        "10 minutes"
    } else if str_eq(key, "one_hour") {
        "1 hour"
    } else if str_eq(key, "twenty_four_hours") {
        "24 hours"
    } else if str_eq(key, "three_days") {
        "3 days"
    } else if str_eq(key, "one_week") {
        "1 week"
    } else if str_eq(key, "never_expire") {
        "Never Expire"
    } else if str_eq(key, "burn_after") {
        "Burn After"
    } else if str_eq(key, "burn_after_group") {
        "Burn after"
    } else if str_eq(key, "first_read") {
        "First Read"
    } else if str_eq(key, "tenth_read") {
        "10th Read"
    } else if str_eq(key, "hundredth_read") {
        "100th Read"
    } else if str_eq(key, "thousandth_read") {
        "1000th Read"
    } else if str_eq(key, "ten_thousandth_read") {
        "10000th Read"
    } else if str_eq(key, "no_limit") {
        "No Limit"
    } else if str_eq(key, "syntax") {
        "Syntax"
    } else if str_eq(key, "none") {
        "None"
    } else if str_eq(key, "source_code") {
        "Source Code"
    } else if str_eq(key, "descriptors") {
        "Descriptors"
    } else if str_eq(key, "bash_shell") {
        "Bash Shell"
    } else if str_eq(key, "delphi") {
        "Delphi"
    } else if str_eq(key, "javascript") {
        "JavaScript"
    } else if str_eq(key, "editable") {
        "Editable"
    } else if str_eq(key, "private") {
        "Private"
    } else if str_eq(key, "other") {
        "Other"
    } else if str_eq(key, "content") {
        "Content"
    } else if str_eq(key, "custom_key") {
        "Custom Key (optional)"
    } else if str_eq(key, "custom_key_hint") {
        "Use a-z, 0-9, hyphens, and underscores; 3-64 characters"
    } else if str_eq(key, "custom_key_empty") {
        "Leave blank to generate a Key automatically"
    } else if str_eq(key, "custom_key_valid") {
        "Key format is valid"
    } else if str_eq(key, "custom_key_invalid") {
        "Key format is invalid"
    } else if str_eq(key, "characters") {
        "characters"
    } else if str_eq(key, "select_or_drop_file") {
        "Select or drop file attachment"
    } else if str_eq(key, "drop_file") {
        "Drop your file here"
    } else if str_eq(key, "drop_replace_file") {
        "Drop your file here to replace"
    } else if str_eq(key, "attached") {
        "Attached: "
    } else if str_eq(key, "save") {
        "Save"
    } else if str_eq(key, "saving") {
        "Saving…"
    } else if str_eq(key, "clear_file") {
        "Remove file"
    } else if str_eq(key, "no_file") {
        "No file selected"
    } else if str_eq(key, "read_only") {
        "Read Only"
    } else if str_eq(key, "copy_text") {
        "Copy Text"
    } else if str_eq(key, "copy_redirect") {
        "Copy Redirect"
    } else if str_eq(key, "raw_text_content") {
        "Raw Text Content"
    } else if str_eq(key, "qr") {
        "QR"
    } else if str_eq(key, "edit") {
        "Edit"
    } else if str_eq(key, "remove") {
        "Remove"
    } else if str_eq(key, "copy_url") {
        "Copy URL"
    } else if str_eq(key, "copied") {
        "Copied"
    } else if str_eq(key, "download_attached_file") {
        "Download attached file: "
    } else if str_eq(key, "back_to_pasta") {
        "Back to Pasta"
    } else if str_eq(key, "pastas") {
        "Pastas"
    } else if str_eq(key, "no_pastas") {
        "No pastas yet."
    } else if str_eq(key, "create_one") {
        "Create one"
    } else if str_eq(key, "here") {
        "here"
    } else if str_eq(key, "key") {
        "Key"
    } else if str_eq(key, "raw") {
        "Raw"
    } else if str_eq(key, "file") {
        "File"
    } else if str_eq(key, "never") {
        "Never"
    } else if str_eq(key, "url_redirects") {
        "URL Redirects"
    } else if str_eq(key, "created") {
        "Created"
    } else if str_eq(key, "open") {
        "Open"
    } else if str_eq(key, "copy") {
        "Copy"
    } else if str_eq(key, "welcome") {
        "Welcome to MicroBin"
    } else if str_eq(key, "links") {
        "Links"
    } else if str_eq(key, "documentation_help") {
        "Documentation and Help"
    } else if str_eq(key, "feedback") {
        "Feedback"
    } else if str_eq(key, "donate_sponsor") {
        "Donate and Sponsor"
    } else if str_eq(key, "version") {
        "Version"
    } else if str_eq(key, "status") {
        "Status"
    } else if str_eq(key, "pasta_count") {
        "Pastas"
    } else if str_eq(key, "actions") {
        "Actions"
    } else if str_eq(key, "messages") {
        "Messages"
    } else if str_eq(key, "not_found") {
        "Not Found"
    } else if str_eq(key, "go_home") {
        "Go Home"
    } else if str_eq(key, "just_now") {
        "just now"
    } else if str_eq(key, "warning_no_public_url") {
        "Warning: No public URL set with --public-path parameter. QR code and URL Copying functions have been disabled"
    } else if str_eq(key, "pasta_not_found") {
        "Pasta not found! :-("
    } else if str_eq(key, "invalid_login") {
        "Invalid login details."
    } else if str_eq(key, "invalid_locale") {
        "Unsupported language."
    } else if str_eq(key, "invalid_key") {
        "Key must be 3-64 lowercase letters, numbers, hyphens, or underscores."
    } else if str_eq(key, "duplicate_key") {
        "That key already exists. Please choose another key."
    } else if str_eq(key, "confirm_remove") {
        "Are you sure you want to remove this pasta?"
    } else {
        proof {
            reveal_strlit("");
        }
        ""
    }
}

/// Looks up the Simplified Chinese text for `key`.
#[verifier::rlimit(50)]
pub(crate) fn chinese_text_of(key: &str) -> (r: &'static str)
    ensures
        r@ == chinese_text(key@),
{
    if str_eq(key, "new") {
        "新建"
    } else if str_eq(key, "list") {
        "列表"
    } else if str_eq(key, "info") {
        "信息"
    } else if str_eq(key, "navigation") {
        "导航"
    } else if str_eq(key, "language") {
        "语言"
    } else if str_eq(key, "english") {
        "English"
    } else if str_eq(key, "simplified_chinese") {
        "简体中文"
    } else if str_eq(key, "theme_light") {
        "切换到浅色主题"
    } else if str_eq(key, "theme_dark") {
        "切换到深色主题"
    } else if str_eq(key, "expiration") {
        "过期时间"
    } else if str_eq(key, "expire_after") {
        "过期于"
    } else if str_eq(key, "one_minute") {
        "1 分钟"
    } else if str_eq(key, "ten_minutes") {
        "10 分钟"
    } else if str_eq(key, "one_hour") {
        "1 小时"
    } else if str_eq(key, "twenty_four_hours") {
        "24 小时"
    } else if str_eq(key, "three_days") {
        "3 天"
    } else if str_eq(key, "one_week") {
        "1 周"
    } else if str_eq(key, "never_expire") {
        "永不过期"
    } else if str_eq(key, "burn_after") {
        "阅读后销毁"
    } else if str_eq(key, "burn_after_group") {
        "销毁于第"
    } else if str_eq(key, "first_read") {
        "首次阅读"
    } else if str_eq(key, "tenth_read") {
        "第 10 次阅读"
    } else if str_eq(key, "hundredth_read") {
        "第 100 次阅读"
    } else if str_eq(key, "thousandth_read") {
        "第 1000 次阅读"
    } else if str_eq(key, "ten_thousandth_read") {
        "第 10000 次阅读"
    } else if str_eq(key, "no_limit") {
        "不限次数"
    } else if str_eq(key, "syntax") {
        "语法"
    } else if str_eq(key, "none") {
        "无"
    } else if str_eq(key, "source_code") {
        "源代码"
    } else if str_eq(key, "descriptors") {
        "描述文件"
    } else if str_eq(key, "bash_shell") {
        "Bash Shell"
    } else if str_eq(key, "delphi") {
        "Delphi"
    } else if str_eq(key, "javascript") {
        "JavaScript"
    } else if str_eq(key, "editable") {
        "可编辑"
    } else if str_eq(key, "private") {
        "私有"
    } else if str_eq(key, "other") {
        "其他"
    } else if str_eq(key, "content") {
        "内容"
    } else if str_eq(key, "custom_key") {
        "自定义 Key（可选）"
    } else if str_eq(key, "custom_key_hint") {
        "仅允许 a-z、0-9、短横线和下划线，长度 3-64"
    } else if str_eq(key, "custom_key_empty") {
        "留空将自动生成 Key"
    } else if str_eq(key, "custom_key_valid") {
        "Key 格式有效"
    } else if str_eq(key, "custom_key_invalid") {
        "Key 格式无效"
    } else if str_eq(key, "characters") {
        "个字符"
    } else if str_eq(key, "select_or_drop_file") {
        "选择或拖放文件附件"
    } else if str_eq(key, "drop_file") {
        "将文件拖放到这里"
    } else if str_eq(key, "drop_replace_file") {
        "将文件拖放到这里以替换"
    } else if str_eq(key, "attached") {
        "已附加："
    } else if str_eq(key, "save") {
        "保存"
    } else if str_eq(key, "saving") {
        "保存中…"
    } else if str_eq(key, "clear_file") {
        "移除文件"
    } else if str_eq(key, "no_file") {
        "未选择文件"
    } else if str_eq(key, "read_only") {
        "只读"
    } else if str_eq(key, "copy_text") {
        "复制文本"
    } else if str_eq(key, "copy_redirect") {
        "复制重定向地址"
    } else if str_eq(key, "raw_text_content") {
        "原始文本内容"
    } else if str_eq(key, "qr") {
        "二维码"
    } else if str_eq(key, "edit") {
        "编辑"
    } else if str_eq(key, "remove") {
        "删除"
    } else if str_eq(key, "copy_url") {
        "复制 URL"
    } else if str_eq(key, "copied") {
        "已复制"
    } else if str_eq(key, "download_attached_file") {
        "下载附件："
    } else if str_eq(key, "back_to_pasta") {
        "返回 Pasta"
    } else if str_eq(key, "pastas") {
        "Pastas"
    } else if str_eq(key, "no_pastas") {
        "还没有 Pasta。"
    } else if str_eq(key, "create_one") {
        "创建一个"
    } else if str_eq(key, "here") {
        "这里"
    } else if str_eq(key, "key") {
        "Key"
    } else if str_eq(key, "raw") {
        "原始内容"
    } else if str_eq(key, "file") {
        "文件"
    } else if str_eq(key, "never") {
        "永不"
    } else if str_eq(key, "url_redirects") {
        "URL 重定向"
    } else if str_eq(key, "created") {
        "创建时间"
    } else if str_eq(key, "open") {
        "打开"
    } else if str_eq(key, "copy") {
        "复制"
    } else if str_eq(key, "welcome") {
        "欢迎使用 MicroBin"
    } else if str_eq(key, "links") {
        "链接"
    } else if str_eq(key, "documentation_help") {
        "文档与帮助"
    } else if str_eq(key, "feedback") {
        "反馈"
    } else if str_eq(key, "donate_sponsor") {
        "捐赠与赞助"
    } else if str_eq(key, "version") {
        "版本"
    } else if str_eq(key, "status") {
        "状态"
    } else if str_eq(key, "pasta_count") {
        "Pasta 数量"
    } else if str_eq(key, "actions") {
        "操作"
    } else if str_eq(key, "messages") {
        "消息"
    } else if str_eq(key, "not_found") {
        "未找到"
    } else if str_eq(key, "go_home") {
        "返回首页"
    } else if str_eq(key, "just_now") {
        "刚刚"
    } else if str_eq(key, "warning_no_public_url") {
        "警告：未通过 --public-path 参数设置公共 URL，二维码和复制 URL 功能已禁用"
    } else if str_eq(key, "pasta_not_found") {
        "未找到 Pasta！:-("
    } else if str_eq(key, "invalid_login") {
        "登录信息无效。"
    } else if str_eq(key, "invalid_locale") {
        "不支持的语言。"
    } else if str_eq(key, "invalid_key") {
        "Key 必须为 3-64 个小写字母、数字、短横线或下划线。"
    } else if str_eq(key, "duplicate_key") {
        "该 Key 已存在，请选择其他 Key。"
    } else if str_eq(key, "confirm_remove") {
        "确定要删除此 Pasta 吗？"
    } else {
        english_text_of(key)
    }
}

} // verus!
