//! The report of updated plugins.

use crate::text::{join, joined, text_of, views};
use vstd::prelude::*;

verus! {

/// One updated plugin.
#[derive(Debug)]
pub struct Plugin {
    pub name: String,
    pub version: String,
}

/// The line that opens the report.
pub const TITLE: &'static str = "插件更新：\n";

/// The line of one plugin, as Markdown.
pub open spec fn plugin_line(name: Seq<char>, version: Seq<char>) -> Seq<char> {
    "• *"@ + name + "* 已更新至 "@ + version
}

/// The lines of the plugins, in order.
pub open spec fn plugin_lines(list: Seq<Plugin>) -> Seq<Seq<char>> {
    list.map_values(|p: Plugin| plugin_line(p.name@, p.version@))
}

/// The report of the updated plugins: none where no plugin was updated,
/// else the title and one line for each plugin.
pub open spec fn update_report(list: Seq<Plugin>) -> Option<Seq<char>> {
    if list.len() == 0 {
        None
    } else {
        Some(TITLE@ + joined(plugin_lines(list), "\n"@))
    }
}

/// Writes the line of one plugin.
pub fn write_plugin_line(plugin: &Plugin) -> (line: String)
    ensures
        line@ == plugin_line(plugin.name@, plugin.version@),
{
    let mut line = String::from_str("• *");
    line.append(plugin.name.as_str());
    line.append("* 已更新至 ");
    line.append(plugin.version.as_str());
    line
}

/// Writes the report of the updated plugins.
pub fn report(list: &Vec<Plugin>) -> (text: Option<String>)
    ensures
        text_of(text) == update_report(list@),
{
    if list.len() == 0 {
        return None;
    }
    let mut lines: Vec<String> = Vec::new();
    let mut i: usize = 0;
    while i < list.len()
        invariant
            i <= list.len(),
            views(lines@) == plugin_lines(list@).take(i as int),
        decreases list.len() - i,
    {
        let line = write_plugin_line(&list[i]);
        lines.push(line);
        assert(plugin_lines(list@).take(i + 1) =~= plugin_lines(list@).take(i as int).push(
            plugin_lines(list@)[i as int],
        ));
        i += 1;
    }
    assert(plugin_lines(list@).take(list@.len() as int) =~= plugin_lines(list@));
    let body = join(&lines, "\n");
    let mut text = String::from_str(TITLE);
    text.append(body.as_str());
    Some(text)
}

} // verus!
