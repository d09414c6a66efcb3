//! Catalog of the game-asset directories that chunk collections are usually
//! drawn from, each with a short description of what it holds.

use vstd::prelude::*;

verus! {

/// Lists the known asset directories. The catalog is informational: callers
/// browse it to decide where a chunk collection should be loaded from.
pub fn _lmain() {
    let mut _file: Vec<(&str, &str)> = Vec::new();
    _file.push(("干员立绘以及小人拆件", "data/com.hypergryph.arknights/files/AB/Android/chararts"));
    _file.push(
        ("干员皮肤立绘以及小人拆件", "data/com.hypergryph.arknights/files/AB/Android/skinpack"),
    );
    _file.push(("动态立绘的拆件", "data/com.hypergryph.arknights/files/AB/Android/arts/dynchars"));
    _file.push(
        ("剧情立绘以及角色表情差分", "data/com.hypergryph.arknights/files/AB/Android/avg/characters"),
    );
    _file.push(("剧情CG", "data/com.hypergryph.arknights/files/AB/Android/avg/imgs"));
    _file.push(("剧情背景图", "data/com.hypergryph.arknights/files/AB/Android/avg/bg"));
    _file.push(("剧情小资源及视频", "data/com.hypergryph.arknights/files/AB/Android/avg/items"));
    _file.push(("视频", "data/com.hypergryph.arknights/files/AB/Android/raw"));
    _file.push(("剧情文本", "data/com.hypergryph.arknights/files/AB/Android/gamedata/story"));
    _file.push(("卡池封面", "data/com.hypergryph.arknights/files/AB/Android/ui/gacha"));
    _file.push(("关卡地图", "data/com.hypergryph.arknights/files/AB/Android/arts/ui"));
    _file.push(("主线章节关卡背景图", "data/com.hypergryph.arknights/files/AB/Android/ui"));
    _file.push(("活动关卡背景图", "data/com.hypergryph.arknights/files/AB/Android/activity"));
    _file.push(
        ("主界面壁纸", "data/com.hypergryph.arknights/files/AB/Android/arts/ui/homebackground/wrappe"),
    );
    _file.push(("活动主界面图以及UI设计", "data/com.hypergryph.arknights/files/AB/Android/activity"));
}

} // verus!
