//! The rules that are used where none are configured.

use vstd::prelude::*;
use crate::files::categories;
use crate::rules::RawRules;

verus! {

/// The built-in rules, in the order in which they are tried: a pattern for
/// the names of each kind of file, and the category that such files go to.
pub open spec fn default_rule_list() -> Seq<(Seq<char>, Seq<char>)> {
    seq![
        (r"\.(mp3|flac|ogg|wav|m4a|aac|opus|wma)$"@, "Audio"@),
        (r"\.(zip|rar|7z|tar|gz|bz2|xz|zst|tgz)$"@, "Compressed"@),
        (r"\.(tmp|temp|bak|swp|part|crdownload)$"@, "Garbage"@),
        (r"\.(torrent|deb|rpm|exe|msi|dmg|apk|appimage)$"@, "Downloads"@),
        (r"\.(rs|c|h|cpp|hpp|py|js|ts|go|java|rb|sh|pl|php|html|css)$"@, "Code"@),
        (r"\.(pdf|docx?|odt|rtf|txt|md|xlsx?|ods|pptx?|odp|epub|djvu)$"@, "Documents"@),
        (r"\.(png|jpe?g|gif|bmp|svg|webp|tiff?|ico|psd|xcf)$"@, "Images"@),
        (r"\.(iso|img)$"@, "ISO"@),
        (r"\.(conf|cfg|ini|toml|ya?ml|json|xml)$"@, "Configuration"@),
        (r"\.(gpg|pgp|asc|kdbx?|enc)$"@, "Encrypted"@),
        (r"\.(mp4|mkv|avi|mov|webm|flv|wmv|m4v|mpe?g)$"@, "Video"@),
        (r"^\.?#.*#$"@, "Garbage"@),
        (r"~$"@, "Garbage"@),
        (r"^thumbs\.db$"@, "REMOVE"@),
        (r"^desktop\.ini$"@, "REMOVE"@),
        (r"^\.ds_store$"@, "REMOVE"@),
        (r"\.(log|out)$"@, "Garbage"@),
        (r"\.(ttf|otf|woff2?)$"@, "Unsorted"@),
        (r"^readme"@, "Documents"@),
        (r"^license"@, "Documents"@),
    ]
}

fn rule(pattern: &str, category: &str) -> (pair: (String, String))
    ensures
        pair.deep_view() == (pattern@, category@),
{
    (pattern.to_owned(), category.to_owned())
}

impl Default for RawRules {
    /// The built-in rules.
    fn default() -> (raw: RawRules)
        ensures
            raw.rules.deep_view() == default_rule_list(),
    {
        let mut rules: Vec<(String, String)> = Vec::new();
        rules.push(rule(r"\.(mp3|flac|ogg|wav|m4a|aac|opus|wma)$", "Audio"));
        rules.push(rule(r"\.(zip|rar|7z|tar|gz|bz2|xz|zst|tgz)$", "Compressed"));
        rules.push(rule(r"\.(tmp|temp|bak|swp|part|crdownload)$", "Garbage"));
        rules.push(rule(r"\.(torrent|deb|rpm|exe|msi|dmg|apk|appimage)$", "Downloads"));
        rules.push(rule(r"\.(rs|c|h|cpp|hpp|py|js|ts|go|java|rb|sh|pl|php|html|css)$", "Code"));
        rules.push(rule(r"\.(pdf|docx?|odt|rtf|txt|md|xlsx?|ods|pptx?|odp|epub|djvu)$", "Documents"));
        rules.push(rule(r"\.(png|jpe?g|gif|bmp|svg|webp|tiff?|ico|psd|xcf)$", "Images"));
        rules.push(rule(r"\.(iso|img)$", "ISO"));
        rules.push(rule(r"\.(conf|cfg|ini|toml|ya?ml|json|xml)$", "Configuration"));
        rules.push(rule(r"\.(gpg|pgp|asc|kdbx?|enc)$", "Encrypted"));
        rules.push(rule(r"\.(mp4|mkv|avi|mov|webm|flv|wmv|m4v|mpe?g)$", "Video"));
        rules.push(rule(r"^\.?#.*#$", "Garbage"));
        rules.push(rule(r"~$", "Garbage"));
        rules.push(rule(r"^thumbs\.db$", "REMOVE"));
        rules.push(rule(r"^desktop\.ini$", "REMOVE"));
        rules.push(rule(r"^\.ds_store$", "REMOVE"));
        rules.push(rule(r"\.(log|out)$", "Garbage"));
        rules.push(rule(r"\.(ttf|otf|woff2?)$", "Unsorted"));
        rules.push(rule(r"^readme", "Documents"));
        rules.push(rule(r"^license", "Documents"));
        assert(rules.deep_view() =~= default_rule_list());
        RawRules { rules }
    }
}

/// Every built-in rule sends its files to one of the categories, so to a
/// directory that a run makes sure of.
pub proof fn default_rules_use_the_categories()
    ensures
        forall|i: int|
            0 <= i < default_rule_list().len() ==> categories().contains(
                (#[trigger] default_rule_list()[i]).1,
            ),
{
    let list = default_rule_list();
    let all = categories();
    assert forall|i: int| 0 <= i < list.len() implies all.contains((#[trigger] list[i]).1) by {
        assert(list[0].1 == all[0]);
        assert(list[1].1 == all[1]);
        assert(list[2].1 == all[2]);
        assert(list[3].1 == all[3]);
        assert(list[4].1 == all[4]);
        assert(list[5].1 == all[5]);
        assert(list[6].1 == all[6]);
        assert(list[7].1 == all[7]);
        assert(list[8].1 == all[8]);
        assert(list[9].1 == all[9]);
        assert(list[10].1 == all[10]);
        assert(list[11].1 == all[2]);
        assert(list[12].1 == all[2]);
        assert(list[13].1 == all[12]);
        assert(list[14].1 == all[12]);
        assert(list[15].1 == all[12]);
        assert(list[16].1 == all[2]);
        assert(list[17].1 == all[11]);
        assert(list[18].1 == all[5]);
        assert(list[19].1 == all[5]);
        assert(forall|k: int| 0 <= k < all.len() ==> all.contains(#[trigger] all[k]));
    }
}

} // verus!
