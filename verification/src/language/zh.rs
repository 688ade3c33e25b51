//! Simplified Chinese strings, keyed by the English source string.
//! Anything absent here falls back to English at the call site.
use vstd::prelude::*;

use crate::text::same_text;

verus! {

/// The Simplified Chinese form of every source string this file carries.
pub open spec fn table(source: Seq<char>) -> Option<Seq<char>> {
    if source == "Play preview"@ {
        Some("播放预览"@)
    } else if source == "Pause preview"@ {
        Some("暂停预览"@)
    } else if source == "Unsaved Draft Changes"@ {
        Some("草稿更改尚未保存"@)
    } else if source == "Click Apply to commit draft edits."@ {
        Some("点击应用以保存草稿更改。"@)
    } else if source == "Updates live while measuring"@ {
        Some("测量期间实时更新"@)
    } else if source == "Based on neutral transitions"@ {
        Some("基于中立过渡"@)
    } else if source == "Based on physical overlaps"@ {
        Some("基于物理按键重叠"@)
    } else if source == "Shows how long each key is held and where it overlaps its opposite, live."@ {
        Some("实时显示每个按键的按住时长及其与反方向按键的重叠。"@)
    } else if source == "Keyboard input capture is active"@ {
        Some("键盘输入捕获已开启"@)
    } else if source == "Each overlap randomly picks one of the two delays below."@ {
        Some("每次重叠随机选择以下两种延迟之一。"@)
    } else if source == "Unclear input order (<1 ms), excluded from timing ranges."@ {
        Some("输入顺序不明确（小于 1 ms），不计入时序范围。"@)
    } else if source == "Preview"@ {
        Some("预览"@)
    } else if source == "Previous example"@ {
        Some("上一个示例"@)
    } else if source == "Next example"@ {
        Some("下一个示例"@)
    } else if source == "Game receives A + D"@ {
        Some("游戏收到 A + D"@)
    } else if source == "Game receives no direction"@ {
        Some("游戏未收到方向输入"@)
    } else if source == "Game receives A"@ {
        Some("游戏收到 A"@)
    } else if source == "Game receives D"@ {
        Some("游戏收到 D"@)
    } else if source == "Key mappings"@ {
        Some("按键映射"@)
    } else if source == "Input timings"@ {
        Some("输入时序"@)
    } else if source == "Key Input Timeline"@ {
        Some("按键时间线"@)
    } else if source == "Input timing measurement"@ {
        Some("输入时序测量"@)
    } else if source == "Measured Input Transitions"@ {
        Some("轴向延迟测量"@)
    } else if source == "Suggested delays"@ {
        Some("建议的 SOCD 设置"@)
    } else if source == "Hardware scan codes the SOCD filter uses"@ {
        Some("SOCD 过滤器使用的硬件扫描码"@)
    } else if source == "How opposite-direction overlaps resolve."@ {
        Some("设置相反方向按键重叠时的处理方式。"@)
    } else if source == "Restore mapping defaults"@ {
        Some("恢复映射默认值"@)
    } else if source == "Restore timing defaults"@ {
        Some("恢复时序默认值"@)
    } else if source == "Restore all defaults"@ {
        Some("恢复所有默认值"@)
    } else if source == "Revert"@ {
        Some("撤销修改"@)
    } else if source == "Apply"@ {
        Some("应用"@)
    } else if source == "Profile Slots"@ {
        Some("档案槽位"@)
    } else if source == "Profiles"@ {
        Some("配置档案"@)
    } else if source == "Profile"@ {
        Some("档案"@)
    } else if source == "Language"@ {
        Some("语言"@)
    } else if source == "Rename"@ {
        Some("重命名"@)
    } else if source == "Load"@ {
        Some("加载"@)
    } else if source == "Cancel"@ {
        Some("取消"@)
    } else if source == "Close"@ {
        Some("关闭"@)
    } else if source == "Profile name"@ {
        Some("档案名称"@)
    } else if source == "Changes are saved when you click Apply."@ {
        Some("点击“应用”后保存更改。"@)
    } else if source == "Load a slot to activate it immediately. Apply saves edits to the active slot."@ {
        Some("加载后立即启用档案。点击“应用”将修改保存到当前档案。"@)
    } else if source == "Load this slot?"@ {
        Some("加载此档案？"@)
    } else if source == "Unapplied draft changes will be discarded."@ {
        Some("未应用的修改将被丢弃。"@)
    } else if source == "Loading and activating profile…"@ {
        Some("正在加载并启用档案…"@)
    } else if source == "Saving profile name…"@ {
        Some("正在保存档案名称…"@)
    } else if source == "Profile loaded and activated."@ {
        Some("档案已加载并启用。"@)
    } else if source == "Profile renamed."@ {
        Some("档案名称已更改。"@)
    } else if source == "Active"@ {
        Some("当前"@)
    } else if source == "Updating…"@ {
        Some("更新中…"@)
    } else if source == "Enable the SOCD filter"@ {
        Some("启用 SOCD 过滤器"@)
    } else if source == "Disable the SOCD filter"@ {
        Some("禁用 SOCD 过滤器"@)
    } else if source == "All keys uniquely assigned."@ {
        Some("所有按键均无重复。"@)
    } else if source == "Duplicate key bindings detected."@ {
        Some("检测到重复按键。"@)
    } else if source == "UP"@ {
        Some("上"@)
    } else if source == "DOWN"@ {
        Some("下"@)
    } else if source == "LEFT"@ {
        Some("左"@)
    } else if source == "RIGHT"@ {
        Some("右"@)
    } else if source == "Immediate"@ {
        Some("即时"@)
    } else if source == "Press Delay"@ {
        Some("按下延迟"@)
    } else if source == "Random Mix"@ {
        Some("随机混合"@)
    } else if source == "Release Delay"@ {
        Some("松开延迟"@)
    } else if source == "How it works"@ {
        Some("工作原理"@)
    } else if source == "Delay Mix Ratio"@ {
        Some("延迟混合比例"@)
    } else if source == "Press delay"@ {
        Some("按下延迟"@)
    } else if source == "Release delay"@ {
        Some("松开延迟"@)
    } else if source == "New Key Press Delay"@ {
        Some("新按键按下延迟"@)
    } else if source == "Previous Key Release Delay"@ {
        Some("前一按键松开延迟"@)
    } else if source == "Starting…"@ {
        Some("启动中…"@)
    } else if source == "Stopping…"@ {
        Some("停止中…"@)
    } else if source == "Start measurement"@ {
        Some("开始测量"@)
    } else if source == "Stop measurement"@ {
        Some("停止测量"@)
    } else if source == "Reset session"@ {
        Some("重置会话"@)
    } else if source == "Records your mapped key-pair timing for this session."@ {
        Some("记录本次会话中映射按键对的输入时序。"@)
    } else if source == "No measurement results yet."@ {
        Some("尚无测量结果。"@)
    } else if source == "Physical key edges"@ {
        Some("物理按键变化"@)
    } else if source == "Valid paired samples"@ {
        Some("有效配对样本"@)
    } else if source == "Physical overlap share"@ {
        Some("物理重叠比例"@)
    } else if source == "Indistinguishable share"@ {
        Some("近同时输入比例"@)
    } else if source == "INPUT PATTERN"@ {
        Some("输入模式"@)
    } else if source == "SAMPLES"@ {
        Some("样本数"@)
    } else if source == "MIN"@ {
        Some("最小值"@)
    } else if source == "MAX"@ {
        Some("最大值"@)
    } else if source == "Neutral transition"@ {
        Some("中立转换"@)
    } else if source == "Physical overlap"@ {
        Some("物理重叠"@)
    } else if source == "Indistinguishable"@ {
        Some("近同时输入"@)
    } else if source == "Based on P10-P50 input timings, excluding indistinguishable inputs."@ {
        Some("两个轴的 P10–P50 范围，不含近同时样本。"@)
    } else if source == "Apply suggestions"@ {
        Some("将建议写入设置"@)
    } else if source == "Synchronized"@ {
        Some("已同步"@)
    } else if source == "Settings are synchronized with the runtime."@ {
        Some("设置已与运行时同步。"@)
    } else if source == "Settings applied."@ {
        Some("设置已应用。"@)
    } else if source == "Connecting to the LastKey runtime..."@ {
        Some("正在连接 LastKey 运行时…"@)
    } else if source == "Connected to the LastKey runtime."@ {
        Some("已连接 LastKey 运行时。"@)
    } else if source == "The LastKey runtime is disconnected."@ {
        Some("LastKey 运行时已断开。"@)
    } else if source == "The settings UI is waiting for LastKey.exe."@ {
        Some("设置窗口正在等待 LastKey.exe。"@)
    } else if source == "Request snapshot"@ {
        Some("重新同步"@)
    } else if source == "Applying settings..."@ {
        Some("正在应用设置…"@)
    } else if source == "Mapping changed. Select Apply when ready."@ {
        Some("按键映射已更改。准备好后点击“应用”。"@)
    } else if source == "Recommendations written to the draft. Select Apply when ready."@ {
        Some("建议已写入草稿。准备好后点击“应用”。"@)
    } else if source == "Detect an opposite-direction overlap."@ {
        Some("检测到相反方向按键重叠。"@)
    } else if source == "Release the previous key output immediately."@ {
        Some("立即松开旧方向的输出。"@)
    } else if source == "Send the new key immediately. 0 ms added delay"@ {
        Some("立即输出新方向。增加的延迟为 0 ms"@)
    } else if source == "Send the new key immediately."@ {
        Some("立即输出新方向。"@)
    } else if source == "Wait a random time within {range}. This gap sends no input"@ {
        Some("在 {range} 内随机等待。此间隔不输出任何按键"@)
    } else if source == "Send the new key once the wait ends."@ {
        Some("等待结束后输出新方向。"@)
    } else if source == "Wait a random time within {range}. The overlap stays live"@ {
        Some("在 {range} 内随机等待。期间重叠保持生效"@)
    } else if source == "Release the previous key output once the wait ends."@ {
        Some("等待结束后松开旧方向的输出。"@)
    } else if source == "Click keycap to rebind"@ {
        Some("点击键帽重新绑定"@)
    } else if source == "Press a new key on your keyboard..."@ {
        Some("请按下新的按键…"@)
    } else if source == "ESC Cancel"@ {
        Some("ESC 取消"@)
    } else {
        None
    }
}

/// The Simplified Chinese form of `source`, or `None` where this file has none.
#[verifier::rlimit(50)]
pub fn text(source: &str) -> (r: Option<&'static str>)
    ensures
        r is None <==> table(source@) is None,
        r matches Some(t) ==> table(source@) == Some(t@),
{
    if same_text(source, "Play preview") {
        return Some("播放预览");
    }
    if same_text(source, "Pause preview") {
        return Some("暂停预览");
    }
    if same_text(source, "Unsaved Draft Changes") {
        return Some("草稿更改尚未保存");
    }
    if same_text(source, "Click Apply to commit draft edits.") {
        return Some("点击应用以保存草稿更改。");
    }
    if same_text(source, "Updates live while measuring") {
        return Some("测量期间实时更新");
    }
    if same_text(source, "Based on neutral transitions") {
        return Some("基于中立过渡");
    }
    if same_text(source, "Based on physical overlaps") {
        return Some("基于物理按键重叠");
    }
    if same_text(source, "Shows how long each key is held and where it overlaps its opposite, live.") {
        return Some("实时显示每个按键的按住时长及其与反方向按键的重叠。");
    }
    if same_text(source, "Keyboard input capture is active") {
        return Some("键盘输入捕获已开启");
    }
    if same_text(source, "Each overlap randomly picks one of the two delays below.") {
        return Some("每次重叠随机选择以下两种延迟之一。");
    }
    if same_text(source, "Unclear input order (<1 ms), excluded from timing ranges.") {
        return Some("输入顺序不明确（小于 1 ms），不计入时序范围。");
    }
    if same_text(source, "Preview") {
        return Some("预览");
    }
    if same_text(source, "Previous example") {
        return Some("上一个示例");
    }
    if same_text(source, "Next example") {
        return Some("下一个示例");
    }
    if same_text(source, "Game receives A + D") {
        return Some("游戏收到 A + D");
    }
    if same_text(source, "Game receives no direction") {
        return Some("游戏未收到方向输入");
    }
    if same_text(source, "Game receives A") {
        return Some("游戏收到 A");
    }
    if same_text(source, "Game receives D") {
        return Some("游戏收到 D");
    }
    if same_text(source, "Key mappings") {
        return Some("按键映射");
    }
    if same_text(source, "Input timings") {
        return Some("输入时序");
    }
    if same_text(source, "Key Input Timeline") {
        return Some("按键时间线");
    }
    if same_text(source, "Input timing measurement") {
        return Some("输入时序测量");
    }
    if same_text(source, "Measured Input Transitions") {
        return Some("轴向延迟测量");
    }
    if same_text(source, "Suggested delays") {
        return Some("建议的 SOCD 设置");
    }
    if same_text(source, "Hardware scan codes the SOCD filter uses") {
        return Some("SOCD 过滤器使用的硬件扫描码");
    }
    if same_text(source, "How opposite-direction overlaps resolve.") {
        return Some("设置相反方向按键重叠时的处理方式。");
    }
    if same_text(source, "Restore mapping defaults") {
        return Some("恢复映射默认值");
    }
    if same_text(source, "Restore timing defaults") {
        return Some("恢复时序默认值");
    }
    if same_text(source, "Restore all defaults") {
        return Some("恢复所有默认值");
    }
    if same_text(source, "Revert") {
        return Some("撤销修改");
    }
    if same_text(source, "Apply") {
        return Some("应用");
    }
    if same_text(source, "Profile Slots") {
        return Some("档案槽位");
    }
    if same_text(source, "Profiles") {
        return Some("配置档案");
    }
    if same_text(source, "Profile") {
        return Some("档案");
    }
    if same_text(source, "Language") {
        return Some("语言");
    }
    if same_text(source, "Rename") {
        return Some("重命名");
    }
    if same_text(source, "Load") {
        return Some("加载");
    }
    if same_text(source, "Cancel") {
        return Some("取消");
    }
    if same_text(source, "Close") {
        return Some("关闭");
    }
    if same_text(source, "Profile name") {
        return Some("档案名称");
    }
    if same_text(source, "Changes are saved when you click Apply.") {
        return Some("点击“应用”后保存更改。");
    }
    if same_text(source, "Load a slot to activate it immediately. Apply saves edits to the active slot.") {
        return Some("加载后立即启用档案。点击“应用”将修改保存到当前档案。");
    }
    if same_text(source, "Load this slot?") {
        return Some("加载此档案？");
    }
    if same_text(source, "Unapplied draft changes will be discarded.") {
        return Some("未应用的修改将被丢弃。");
    }
    if same_text(source, "Loading and activating profile…") {
        return Some("正在加载并启用档案…");
    }
    if same_text(source, "Saving profile name…") {
        return Some("正在保存档案名称…");
    }
    if same_text(source, "Profile loaded and activated.") {
        return Some("档案已加载并启用。");
    }
    if same_text(source, "Profile renamed.") {
        return Some("档案名称已更改。");
    }
    if same_text(source, "Active") {
        return Some("当前");
    }
    if same_text(source, "Updating…") {
        return Some("更新中…");
    }
    if same_text(source, "Enable the SOCD filter") {
        return Some("启用 SOCD 过滤器");
    }
    if same_text(source, "Disable the SOCD filter") {
        return Some("禁用 SOCD 过滤器");
    }
    if same_text(source, "All keys uniquely assigned.") {
        return Some("所有按键均无重复。");
    }
    if same_text(source, "Duplicate key bindings detected.") {
        return Some("检测到重复按键。");
    }
    if same_text(source, "UP") {
        return Some("上");
    }
    if same_text(source, "DOWN") {
        return Some("下");
    }
    if same_text(source, "LEFT") {
        return Some("左");
    }
    if same_text(source, "RIGHT") {
        return Some("右");
    }
    if same_text(source, "Immediate") {
        return Some("即时");
    }
    if same_text(source, "Press Delay") {
        return Some("按下延迟");
    }
    if same_text(source, "Random Mix") {
        return Some("随机混合");
    }
    if same_text(source, "Release Delay") {
        return Some("松开延迟");
    }
    if same_text(source, "How it works") {
        return Some("工作原理");
    }
    if same_text(source, "Delay Mix Ratio") {
        return Some("延迟混合比例");
    }
    if same_text(source, "Press delay") {
        return Some("按下延迟");
    }
    if same_text(source, "Release delay") {
        return Some("松开延迟");
    }
    if same_text(source, "New Key Press Delay") {
        return Some("新按键按下延迟");
    }
    if same_text(source, "Previous Key Release Delay") {
        return Some("前一按键松开延迟");
    }
    if same_text(source, "Starting…") {
        return Some("启动中…");
    }
    if same_text(source, "Stopping…") {
        return Some("停止中…");
    }
    if same_text(source, "Start measurement") {
        return Some("开始测量");
    }
    if same_text(source, "Stop measurement") {
        return Some("停止测量");
    }
    if same_text(source, "Reset session") {
        return Some("重置会话");
    }
    if same_text(source, "Records your mapped key-pair timing for this session.") {
        return Some("记录本次会话中映射按键对的输入时序。");
    }
    if same_text(source, "No measurement results yet.") {
        return Some("尚无测量结果。");
    }
    if same_text(source, "Physical key edges") {
        return Some("物理按键变化");
    }
    if same_text(source, "Valid paired samples") {
        return Some("有效配对样本");
    }
    if same_text(source, "Physical overlap share") {
        return Some("物理重叠比例");
    }
    if same_text(source, "Indistinguishable share") {
        return Some("近同时输入比例");
    }
    if same_text(source, "INPUT PATTERN") {
        return Some("输入模式");
    }
    if same_text(source, "SAMPLES") {
        return Some("样本数");
    }
    if same_text(source, "MIN") {
        return Some("最小值");
    }
    if same_text(source, "MAX") {
        return Some("最大值");
    }
    if same_text(source, "Neutral transition") {
        return Some("中立转换");
    }
    if same_text(source, "Physical overlap") {
        return Some("物理重叠");
    }
    if same_text(source, "Indistinguishable") {
        return Some("近同时输入");
    }
    if same_text(source, "Based on P10-P50 input timings, excluding indistinguishable inputs.") {
        return Some("两个轴的 P10–P50 范围，不含近同时样本。");
    }
    if same_text(source, "Apply suggestions") {
        return Some("将建议写入设置");
    }
    if same_text(source, "Synchronized") {
        return Some("已同步");
    }
    if same_text(source, "Settings are synchronized with the runtime.") {
        return Some("设置已与运行时同步。");
    }
    if same_text(source, "Settings applied.") {
        return Some("设置已应用。");
    }
    if same_text(source, "Connecting to the LastKey runtime...") {
        return Some("正在连接 LastKey 运行时…");
    }
    if same_text(source, "Connected to the LastKey runtime.") {
        return Some("已连接 LastKey 运行时。");
    }
    if same_text(source, "The LastKey runtime is disconnected.") {
        return Some("LastKey 运行时已断开。");
    }
    if same_text(source, "The settings UI is waiting for LastKey.exe.") {
        return Some("设置窗口正在等待 LastKey.exe。");
    }
    if same_text(source, "Request snapshot") {
        return Some("重新同步");
    }
    if same_text(source, "Applying settings...") {
        return Some("正在应用设置…");
    }
    if same_text(source, "Mapping changed. Select Apply when ready.") {
        return Some("按键映射已更改。准备好后点击“应用”。");
    }
    if same_text(source, "Recommendations written to the draft. Select Apply when ready.") {
        return Some("建议已写入草稿。准备好后点击“应用”。");
    }
    if same_text(source, "Detect an opposite-direction overlap.") {
        return Some("检测到相反方向按键重叠。");
    }
    if same_text(source, "Release the previous key output immediately.") {
        return Some("立即松开旧方向的输出。");
    }
    if same_text(source, "Send the new key immediately. 0 ms added delay") {
        return Some("立即输出新方向。增加的延迟为 0 ms");
    }
    if same_text(source, "Send the new key immediately.") {
        return Some("立即输出新方向。");
    }
    if same_text(source, "Wait a random time within {range}. This gap sends no input") {
        return Some("在 {range} 内随机等待。此间隔不输出任何按键");
    }
    if same_text(source, "Send the new key once the wait ends.") {
        return Some("等待结束后输出新方向。");
    }
    if same_text(source, "Wait a random time within {range}. The overlap stays live") {
        return Some("在 {range} 内随机等待。期间重叠保持生效");
    }
    if same_text(source, "Release the previous key output once the wait ends.") {
        return Some("等待结束后松开旧方向的输出。");
    }
    if same_text(source, "Click keycap to rebind") {
        return Some("点击键帽重新绑定");
    }
    if same_text(source, "Press a new key on your keyboard...") {
        return Some("请按下新的按键…");
    }
    if same_text(source, "ESC Cancel") {
        return Some("ESC 取消");
    }
    None
}



/// No two source strings share a Chinese translation, so no control reads as
/// another: the only strings that share one are the two spellings of a delay
/// mode's name (`Press Delay` / `Press delay`, `Release Delay` /
/// `Release delay`), which name the same thing.
#[verifier::rlimit(100)]
pub proof fn no_two_sources_share_a_translation(a: Seq<char>, b: Seq<char>)
    requires
        table(a) is Some,
        table(a) == table(b),
        a != b,
    ensures
        (a == "Press Delay"@ && b == "Press delay"@) || (a == "Press delay"@ && b == "Press Delay"@)
            || (a == "Release Delay"@ && b == "Release delay"@) || (a == "Release delay"@ && b
            == "Release Delay"@),
{
    reveal_strlit("ESC 取消");
    reveal_strlit("LastKey 运行时已断开。");
    reveal_strlit("SOCD 过滤器使用的硬件扫描码");
    reveal_strlit("上");
    reveal_strlit("上一个示例");
    reveal_strlit("下");
    reveal_strlit("下一个示例");
    reveal_strlit("两个轴的 P10–P50 范围，不含近同时样本。");
    reveal_strlit("中立转换");
    reveal_strlit("停止中…");
    reveal_strlit("停止测量");
    reveal_strlit("关闭");
    reveal_strlit("前一按键松开延迟");
    reveal_strlit("加载");
    reveal_strlit("加载后立即启用档案。点击“应用”将修改保存到当前档案。");
    reveal_strlit("加载此档案？");
    reveal_strlit("即时");
    reveal_strlit("取消");
    reveal_strlit("右");
    reveal_strlit("启动中…");
    reveal_strlit("启用 SOCD 过滤器");
    reveal_strlit("在 {range} 内随机等待。期间重叠保持生效");
    reveal_strlit("在 {range} 内随机等待。此间隔不输出任何按键");
    reveal_strlit("基于中立过渡");
    reveal_strlit("基于物理按键重叠");
    reveal_strlit("实时显示每个按键的按住时长及其与反方向按键的重叠。");
    reveal_strlit("将建议写入设置");
    reveal_strlit("尚无测量结果。");
    reveal_strlit("工作原理");
    reveal_strlit("左");
    reveal_strlit("已同步");
    reveal_strlit("已连接 LastKey 运行时。");
    reveal_strlit("应用");
    reveal_strlit("延迟混合比例");
    reveal_strlit("建议已写入草稿。准备好后点击“应用”。");
    reveal_strlit("建议的 SOCD 设置");
    reveal_strlit("开始测量");
    reveal_strlit("当前");
    reveal_strlit("恢复所有默认值");
    reveal_strlit("恢复时序默认值");
    reveal_strlit("恢复映射默认值");
    reveal_strlit("所有按键均无重复。");
    reveal_strlit("按下延迟");
    reveal_strlit("按键时间线");
    reveal_strlit("按键映射");
    reveal_strlit("按键映射已更改。准备好后点击“应用”。");
    reveal_strlit("撤销修改");
    reveal_strlit("播放预览");
    reveal_strlit("新按键按下延迟");
    reveal_strlit("暂停预览");
    reveal_strlit("更新中…");
    reveal_strlit("最大值");
    reveal_strlit("最小值");
    reveal_strlit("有效配对样本");
    reveal_strlit("未应用的修改将被丢弃。");
    reveal_strlit("松开延迟");
    reveal_strlit("样本数");
    reveal_strlit("档案");
    reveal_strlit("档案名称");
    reveal_strlit("档案名称已更改。");
    reveal_strlit("档案已加载并启用。");
    reveal_strlit("档案槽位");
    reveal_strlit("检测到相反方向按键重叠。");
    reveal_strlit("检测到重复按键。");
    reveal_strlit("正在保存档案名称…");
    reveal_strlit("正在加载并启用档案…");
    reveal_strlit("正在应用设置…");
    reveal_strlit("正在连接 LastKey 运行时…");
    reveal_strlit("每次重叠随机选择以下两种延迟之一。");
    reveal_strlit("测量期间实时更新");
    reveal_strlit("游戏收到 A");
    reveal_strlit("游戏收到 A + D");
    reveal_strlit("游戏收到 D");
    reveal_strlit("游戏未收到方向输入");
    reveal_strlit("点击“应用”后保存更改。");
    reveal_strlit("点击应用以保存草稿更改。");
    reveal_strlit("点击键帽重新绑定");
    reveal_strlit("物理按键变化");
    reveal_strlit("物理重叠");
    reveal_strlit("物理重叠比例");
    reveal_strlit("禁用 SOCD 过滤器");
    reveal_strlit("立即松开旧方向的输出。");
    reveal_strlit("立即输出新方向。");
    reveal_strlit("立即输出新方向。增加的延迟为 0 ms");
    reveal_strlit("等待结束后松开旧方向的输出。");
    reveal_strlit("等待结束后输出新方向。");
    reveal_strlit("草稿更改尚未保存");
    reveal_strlit("记录本次会话中映射按键对的输入时序。");
    reveal_strlit("设置已与运行时同步。");
    reveal_strlit("设置已应用。");
    reveal_strlit("设置相反方向按键重叠时的处理方式。");
    reveal_strlit("设置窗口正在等待 LastKey.exe。");
    reveal_strlit("语言");
    reveal_strlit("请按下新的按键…");
    reveal_strlit("轴向延迟测量");
    reveal_strlit("输入时序");
    reveal_strlit("输入时序测量");
    reveal_strlit("输入模式");
    reveal_strlit("输入顺序不明确（小于 1 ms），不计入时序范围。");
    reveal_strlit("近同时输入");
    reveal_strlit("近同时输入比例");
    reveal_strlit("配置档案");
    reveal_strlit("重命名");
    reveal_strlit("重新同步");
    reveal_strlit("重置会话");
    reveal_strlit("键盘输入捕获已开启");
    reveal_strlit("随机混合");
    reveal_strlit("预览");
    assert("ESC 取消"@.len() == 6);
    assert("LastKey 运行时已断开。"@.len() == 15);
    assert("SOCD 过滤器使用的硬件扫描码"@.len() == 16);
    assert("上"@.len() == 1);
    assert("上一个示例"@.len() == 5);
    assert("下"@.len() == 1);
    assert("下一个示例"@.len() == 5);
    assert("两个轴的 P10–P50 范围，不含近同时样本。"@.len() == 24);
    assert("中立转换"@.len() == 4);
    assert("停止中…"@.len() == 4);
    assert("停止测量"@.len() == 4);
    assert("关闭"@.len() == 2);
    assert("前一按键松开延迟"@.len() == 8);
    assert("加载"@.len() == 2);
    assert("加载后立即启用档案。点击“应用”将修改保存到当前档案。"@.len() == 27);
    assert("加载此档案？"@.len() == 6);
    assert("即时"@.len() == 2);
    assert("取消"@.len() == 2);
    assert("右"@.len() == 1);
    assert("启动中…"@.len() == 4);
    assert("启用 SOCD 过滤器"@.len() == 11);
    assert("在 {range} 内随机等待。期间重叠保持生效"@.len() == 24);
    assert("在 {range} 内随机等待。此间隔不输出任何按键"@.len() == 26);
    assert("基于中立过渡"@.len() == 6);
    assert("基于物理按键重叠"@.len() == 8);
    assert("实时显示每个按键的按住时长及其与反方向按键的重叠。"@.len() == 25);
    assert("将建议写入设置"@.len() == 7);
    assert("尚无测量结果。"@.len() == 7);
    assert("工作原理"@.len() == 4);
    assert("左"@.len() == 1);
    assert("已同步"@.len() == 3);
    assert("已连接 LastKey 运行时。"@.len() == 16);
    assert("应用"@.len() == 2);
    assert("延迟混合比例"@.len() == 6);
    assert("建议已写入草稿。准备好后点击“应用”。"@.len() == 19);
    assert("建议的 SOCD 设置"@.len() == 11);
    assert("开始测量"@.len() == 4);
    assert("当前"@.len() == 2);
    assert("恢复所有默认值"@.len() == 7);
    assert("恢复时序默认值"@.len() == 7);
    assert("恢复映射默认值"@.len() == 7);
    assert("所有按键均无重复。"@.len() == 9);
    assert("按下延迟"@.len() == 4);
    assert("按键时间线"@.len() == 5);
    assert("按键映射"@.len() == 4);
    assert("按键映射已更改。准备好后点击“应用”。"@.len() == 19);
    assert("撤销修改"@.len() == 4);
    assert("播放预览"@.len() == 4);
    assert("新按键按下延迟"@.len() == 7);
    assert("暂停预览"@.len() == 4);
    assert("更新中…"@.len() == 4);
    assert("最大值"@.len() == 3);
    assert("最小值"@.len() == 3);
    assert("有效配对样本"@.len() == 6);
    assert("未应用的修改将被丢弃。"@.len() == 11);
    assert("松开延迟"@.len() == 4);
    assert("样本数"@.len() == 3);
    assert("档案"@.len() == 2);
    assert("档案名称"@.len() == 4);
    assert("档案名称已更改。"@.len() == 8);
    assert("档案已加载并启用。"@.len() == 9);
    assert("档案槽位"@.len() == 4);
    assert("检测到相反方向按键重叠。"@.len() == 12);
    assert("检测到重复按键。"@.len() == 8);
    assert("正在保存档案名称…"@.len() == 9);
    assert("正在加载并启用档案…"@.len() == 10);
    assert("正在应用设置…"@.len() == 7);
    assert("正在连接 LastKey 运行时…"@.len() == 17);
    assert("每次重叠随机选择以下两种延迟之一。"@.len() == 17);
    assert("测量期间实时更新"@.len() == 8);
    assert("游戏收到 A"@.len() == 6);
    assert("游戏收到 A + D"@.len() == 10);
    assert("游戏收到 D"@.len() == 6);
    assert("游戏未收到方向输入"@.len() == 9);
    assert("点击“应用”后保存更改。"@.len() == 12);
    assert("点击应用以保存草稿更改。"@.len() == 12);
    assert("点击键帽重新绑定"@.len() == 8);
    assert("物理按键变化"@.len() == 6);
    assert("物理重叠"@.len() == 4);
    assert("物理重叠比例"@.len() == 6);
    assert("禁用 SOCD 过滤器"@.len() == 11);
    assert("立即松开旧方向的输出。"@.len() == 11);
    assert("立即输出新方向。"@.len() == 8);
    assert("立即输出新方向。增加的延迟为 0 ms"@.len() == 19);
    assert("等待结束后松开旧方向的输出。"@.len() == 14);
    assert("等待结束后输出新方向。"@.len() == 11);
    assert("草稿更改尚未保存"@.len() == 8);
    assert("记录本次会话中映射按键对的输入时序。"@.len() == 18);
    assert("设置已与运行时同步。"@.len() == 10);
    assert("设置已应用。"@.len() == 6);
    assert("设置相反方向按键重叠时的处理方式。"@.len() == 17);
    assert("设置窗口正在等待 LastKey.exe。"@.len() == 21);
    assert("语言"@.len() == 2);
    assert("请按下新的按键…"@.len() == 8);
    assert("轴向延迟测量"@.len() == 6);
    assert("输入时序"@.len() == 4);
    assert("输入时序测量"@.len() == 6);
    assert("输入模式"@.len() == 4);
    assert("输入顺序不明确（小于 1 ms），不计入时序范围。"@.len() == 25);
    assert("近同时输入"@.len() == 5);
    assert("近同时输入比例"@.len() == 7);
    assert("配置档案"@.len() == 4);
    assert("重命名"@.len() == 3);
    assert("重新同步"@.len() == 4);
    assert("重置会话"@.len() == 4);
    assert("键盘输入捕获已开启"@.len() == 9);
    assert("随机混合"@.len() == 4);
    assert("预览"@.len() == 2);
    assert("ESC 取消"@[0] == 'E');
    assert("SOCD 过滤器使用的硬件扫描码"@[0] == 'S');
    assert("上"@[0] == '上');
    assert("上一个示例"@[0] == '上');
    assert("下"@[0] == '下');
    assert("下一个示例"@[0] == '下');
    assert("两个轴的 P10–P50 范围，不含近同时样本。"@[0] == '两');
    assert("中立转换"@[0] == '中');
    assert("停止中…"@[0] == '停');
    assert("停止中…"@[2] == '中');
    assert("停止测量"@[0] == '停');
    assert("停止测量"@[2] == '测');
    assert("关闭"@[0] == '关');
    assert("前一按键松开延迟"@[0] == '前');
    assert("加载"@[0] == '加');
    assert("加载此档案？"@[0] == '加');
    assert("即时"@[0] == '即');
    assert("取消"@[0] == '取');
    assert("右"@[0] == '右');
    assert("启动中…"@[0] == '启');
    assert("启用 SOCD 过滤器"@[0] == '启');
    assert("在 {range} 内随机等待。期间重叠保持生效"@[0] == '在');
    assert("基于中立过渡"@[0] == '基');
    assert("基于物理按键重叠"@[0] == '基');
    assert("实时显示每个按键的按住时长及其与反方向按键的重叠。"@[0] == '实');
    assert("将建议写入设置"@[0] == '将');
    assert("尚无测量结果。"@[0] == '尚');
    assert("工作原理"@[0] == '工');
    assert("左"@[0] == '左');
    assert("已同步"@[0] == '已');
    assert("已连接 LastKey 运行时。"@[0] == '已');
    assert("应用"@[0] == '应');
    assert("延迟混合比例"@[0] == '延');
    assert("建议已写入草稿。准备好后点击“应用”。"@[0] == '建');
    assert("建议的 SOCD 设置"@[0] == '建');
    assert("开始测量"@[0] == '开');
    assert("当前"@[0] == '当');
    assert("恢复所有默认值"@[0] == '恢');
    assert("恢复所有默认值"@[2] == '所');
    assert("恢复时序默认值"@[0] == '恢');
    assert("恢复时序默认值"@[2] == '时');
    assert("恢复映射默认值"@[0] == '恢');
    assert("恢复映射默认值"@[2] == '映');
    assert("所有按键均无重复。"@[0] == '所');
    assert("按下延迟"@[0] == '按');
    assert("按下延迟"@[1] == '下');
    assert("按键时间线"@[0] == '按');
    assert("按键映射"@[0] == '按');
    assert("按键映射"@[1] == '键');
    assert("按键映射已更改。准备好后点击“应用”。"@[0] == '按');
    assert("撤销修改"@[0] == '撤');
    assert("播放预览"@[0] == '播');
    assert("新按键按下延迟"@[0] == '新');
    assert("暂停预览"@[0] == '暂');
    assert("更新中…"@[0] == '更');
    assert("最大值"@[0] == '最');
    assert("最大值"@[1] == '大');
    assert("最小值"@[0] == '最');
    assert("最小值"@[1] == '小');
    assert("有效配对样本"@[0] == '有');
    assert("未应用的修改将被丢弃。"@[0] == '未');
    assert("松开延迟"@[0] == '松');
    assert("样本数"@[0] == '样');
    assert("档案"@[0] == '档');
    assert("档案名称"@[0] == '档');
    assert("档案名称"@[2] == '名');
    assert("档案名称已更改。"@[0] == '档');
    assert("档案已加载并启用。"@[0] == '档');
    assert("档案槽位"@[0] == '档');
    assert("档案槽位"@[2] == '槽');
    assert("检测到相反方向按键重叠。"@[0] == '检');
    assert("检测到重复按键。"@[0] == '检');
    assert("正在保存档案名称…"@[0] == '正');
    assert("正在加载并启用档案…"@[0] == '正');
    assert("正在应用设置…"@[0] == '正');
    assert("正在连接 LastKey 运行时…"@[0] == '正');
    assert("每次重叠随机选择以下两种延迟之一。"@[0] == '每');
    assert("测量期间实时更新"@[0] == '测');
    assert("游戏收到 A"@[0] == '游');
    assert("游戏收到 A"@[5] == 'A');
    assert("游戏收到 A + D"@[0] == '游');
    assert("游戏收到 D"@[0] == '游');
    assert("游戏收到 D"@[5] == 'D');
    assert("游戏未收到方向输入"@[0] == '游');
    assert("点击“应用”后保存更改。"@[0] == '点');
    assert("点击“应用”后保存更改。"@[2] == '“');
    assert("点击应用以保存草稿更改。"@[0] == '点');
    assert("点击应用以保存草稿更改。"@[2] == '应');
    assert("点击键帽重新绑定"@[0] == '点');
    assert("物理按键变化"@[0] == '物');
    assert("物理按键变化"@[2] == '按');
    assert("物理重叠"@[0] == '物');
    assert("物理重叠比例"@[0] == '物');
    assert("物理重叠比例"@[2] == '重');
    assert("禁用 SOCD 过滤器"@[0] == '禁');
    assert("立即松开旧方向的输出。"@[0] == '立');
    assert("立即输出新方向。"@[0] == '立');
    assert("立即输出新方向。增加的延迟为 0 ms"@[0] == '立');
    assert("等待结束后输出新方向。"@[0] == '等');
    assert("草稿更改尚未保存"@[0] == '草');
    assert("设置已与运行时同步。"@[0] == '设');
    assert("设置已应用。"@[0] == '设');
    assert("设置相反方向按键重叠时的处理方式。"@[0] == '设');
    assert("语言"@[0] == '语');
    assert("请按下新的按键…"@[0] == '请');
    assert("轴向延迟测量"@[0] == '轴');
    assert("输入时序"@[0] == '输');
    assert("输入时序"@[2] == '时');
    assert("输入时序测量"@[0] == '输');
    assert("输入模式"@[0] == '输');
    assert("输入模式"@[2] == '模');
    assert("输入顺序不明确（小于 1 ms），不计入时序范围。"@[0] == '输');
    assert("近同时输入"@[0] == '近');
    assert("近同时输入比例"@[0] == '近');
    assert("配置档案"@[0] == '配');
    assert("重命名"@[0] == '重');
    assert("重新同步"@[0] == '重');
    assert("重新同步"@[1] == '新');
    assert("重置会话"@[0] == '重');
    assert("重置会话"@[1] == '置');
    assert("键盘输入捕获已开启"@[0] == '键');
    assert("随机混合"@[0] == '随');
    assert("预览"@[0] == '预');
}

} // verus!
