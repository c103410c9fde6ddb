use vstd::prelude::*;
use crate::backup::strings_view;
use crate::config::BackupConfig;

verus! {

/// Relies on String::push: appends the character.
#[verifier::external_body]
fn push_char(s: &mut String, c: char)
    ensures
        final(s)@ == old(s)@.push(c),
{
    s.push(c)
}

/// The pieces of `s` between the `|` characters, as `str::split('|')` gives them: one more
/// piece than there are bars, some possibly empty.
pub open spec fn split_bars(s: Seq<char>) -> Seq<Seq<char>>
    decreases s.len(),
{
    if s.len() == 0 {
        seq![Seq::<char>::empty()]
    } else {
        let p = split_bars(s.drop_last());
        if s.last() == '|' {
            p.push(Seq::empty())
        } else {
            p.update(p.len() - 1, p.last().push(s.last()))
        }
    }
}

proof fn lemma_split_bars_nonempty(s: Seq<char>)
    ensures
        split_bars(s).len() >= 1,
    decreases s.len(),
{
    if s.len() > 0 {
        lemma_split_bars_nonempty(s.drop_last());
    }
}

/// The extension list typed in the settings form, `|` between extensions.
pub fn split_extensions(text: &str) -> (r: Vec<String>)
    ensures
        strings_view(r@) == split_bars(text@),
{
    let mut parts: Vec<String> = Vec::new();
    let mut current = String::new();
    let chars = text.chars();
    proof {
        broadcast use vstd::string::axiom_spec_iter;
    }
    for c in it: chars
        invariant
            it.seq() == text@,
            strings_view(parts@).push(current@) == split_bars(text@.subrange(0, it.index() as int)),
    {
        let ghost prefix = text@.subrange(0, it.index() as int);
        let ghost next = text@.subrange(0, it.index() + 1);
        proof {
            assert(next.drop_last() =~= prefix);
            assert(next.last() == c);
            lemma_split_bars_nonempty(prefix);
        }
        if c == '|' {
            let ghost before = parts@;
            parts.push(current);
            current = String::new();
            proof {
                assert(parts@ == before.push(parts@.last()));
                assert(strings_view(parts@) =~= strings_view(before).push(parts@.last()@));
                assert(strings_view(parts@).push(current@) =~= split_bars(next));
            }
        } else {
            push_char(&mut current, c);
            proof {
                assert(strings_view(parts@).push(current@) =~= split_bars(next));
            }
        }
    }
    let ghost before = parts@;
    parts.push(current);
    proof {
        assert(text@.subrange(0, text@.len() as int) =~= text@);
        assert(strings_view(parts@) =~= strings_view(before).push(parts@.last()@));
    }
    parts
}

/// The settings entered in the form. The form holds numbers as signed integers; they are
/// converted as Rust's `as` does. The installation directory is not part of the form.
pub fn get_config_from_ui(
    backup_source: String,
    backup_destination: String,
    millis_update_frequency: i32,
    tracking_window_sec: i32,
    tolerance: i32,
    extension_only: bool,
    extension_type: &str,
    mode: String,
    active: bool,
) -> (r: BackupConfig)
    ensures
        r.backup_source == backup_source,
        r.backup_destination == backup_destination,
        r.millis_update_frequency == millis_update_frequency as usize,
        r.tracking_window_sec == tracking_window_sec as usize,
        r.tolerance == tolerance as u32,
        r.extension_only == extension_only,
        strings_view(r.extension_type@) == split_bars(extension_type@),
        r.mode == mode,
        r.active == active,
        r.installation_dir is None,
{
    BackupConfig {
        backup_source,
        backup_destination,
        millis_update_frequency: millis_update_frequency as usize,
        tracking_window_sec: tracking_window_sec as usize,
        tolerance: tolerance as u32,
        extension_only,
        extension_type: split_extensions(extension_type),
        mode,
        active,
        installation_dir: None,
    }
}

} // verus!
