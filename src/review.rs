//! What the review screen lists before the installation starts.
use vstd::prelude::*;
use crate::config::{all_picked_labels, picked_choice_labels, picked_labels, AppCatalog, AppChoice};
use crate::disk::disk_label_of;
use crate::events::opt_text;
use crate::model::text_lines;
use crate::session::SessionState;

verus! {

#[derive(Debug)]
pub struct ReviewItem {
    pub label: String,
    pub value: String,
}

/// The review screen: the system settings, the applications by kind, and
/// how many applications were picked in all.
#[derive(Debug)]
pub struct Review {
    pub system: Vec<ReviewItem>,
    pub packages: Vec<ReviewItem>,
    pub selected_packages: usize,
}

pub open spec fn item_view(i: ReviewItem) -> (Seq<char>, Seq<char>) {
    (i.label@, i.value@)
}

pub open spec fn items_view(v: Seq<ReviewItem>) -> Seq<(Seq<char>, Seq<char>)> {
    v.map_values(|i: ReviewItem| item_view(i))
}

/// The first `n` items joined with `sep` between them.
pub open spec fn join_upto(items: Seq<Seq<char>>, sep: Seq<char>, n: nat) -> Seq<char>
    decreases n,
{
    if n == 0 {
        Seq::empty()
    } else if n == 1 {
        items[0]
    } else {
        join_upto(items, sep, (n - 1) as nat) + sep + items[n - 1]
    }
}

pub open spec fn join_all(items: Seq<Seq<char>>, sep: Seq<char>) -> Seq<char> {
    join_upto(items, sep, items.len())
}

/// How the review shows the applications of one kind.
pub open spec fn kind_value(labels: Seq<Seq<char>>) -> Seq<char> {
    if labels.len() == 0 {
        "None"@
    } else {
        join_all(labels, ", "@)
    }
}

pub open spec fn system_items(s: SessionState, gpu_summary: Option<Seq<char>>) -> Seq<
    (Seq<char>, Seq<char>),
> {
    let d = s.selected_disk->0;
    seq![
        ("Network"@, match opt_text(s.network_label) {
            Some(l) => l,
            None => "Not connected"@,
        }),
        ("Disk"@, disk_label_of(d.name@, d.size@, d.model@)),
        ("Filesystem"@, if s.encrypt_disk {
            "Btrfs (LUKS encrypted)"@
        } else {
            "Btrfs"@
        }),
        ("GPU"@, match gpu_summary {
            Some(g) => g,
            None => "Not detected"@,
        }),
        ("Swap"@, if s.swap_enabled {
            "Enabled (zram)"@
        } else {
            "Disabled"@
        }),
        ("Hostname"@, s.hostname@),
        ("Username"@, s.username@),
        ("Keyboard"@, s.keymap@),
        ("Timezone"@, s.timezone@),
    ]
}

pub open spec fn package_items(s: SessionState, c: AppCatalog) -> Seq<(Seq<char>, Seq<char>)> {
    seq![
        ("Compositor"@, kind_value(all_picked_labels(c.compositors@, s.app_flags.compositors@))),
        ("Browsers"@, kind_value(all_picked_labels(c.browsers@, s.app_flags.browsers@))),
        ("Editors"@, kind_value(all_picked_labels(c.editors@, s.app_flags.editors@))),
        ("Terminals"@, kind_value(all_picked_labels(c.terminals@, s.app_flags.terminals@))),
    ]
}

pub open spec fn picked_count(s: SessionState, c: AppCatalog) -> nat {
    all_picked_labels(c.compositors@, s.app_flags.compositors@).len() + all_picked_labels(
        c.browsers@,
        s.app_flags.browsers@,
    ).len() + all_picked_labels(c.editors@, s.app_flags.editors@).len() + all_picked_labels(
        c.terminals@,
        s.app_flags.terminals@,
    ).len()
}

proof fn lemma_picked_labels_len(choices: Seq<AppChoice>, flags: Seq<bool>, n: nat)
    ensures
        picked_labels(choices, flags, n).len() <= n,
    decreases n,
{
    if n > 0 {
        lemma_picked_labels_len(choices, flags, (n - 1) as nat);
    }
}

/// The labels joined with `sep` between them.
pub fn join_labels(items: &Vec<String>, sep: &str) -> (r: String)
    ensures
        r@ == join_all(text_lines(items@), sep@),
{
    let mut out = String::new();
    let mut i: usize = 0;
    while i < items.len()
        invariant
            i <= items@.len(),
            out@ == join_upto(text_lines(items@), sep@, i as nat),
        decreases items@.len() - i,
    {
        if i > 0 {
            out.append(sep);
        }
        out.append(items[i].as_str());
        i = i + 1;
    }
    out
}

fn kind_text(labels: &Vec<String>) -> (r: String)
    ensures
        r@ == kind_value(text_lines(labels@)),
{
    if labels.len() == 0 {
        String::from_str("None")
    } else {
        join_labels(labels, ", ")
    }
}

fn item(label: &str, value: String) -> (r: ReviewItem)
    ensures
        item_view(r) == (label@, value@),
{
    ReviewItem { label: String::from_str(label), value }
}

fn text(s: &str) -> (r: String)
    ensures
        r@ == s@,
{
    String::from_str(s)
}

/// The review screen for the session, where a disk has been chosen;
/// `gpu_summary` describes the GPUs found and the driver chosen.
pub fn build_review(s: &SessionState, catalog: &AppCatalog, gpu_summary: Option<String>) -> (r:
    Option<Review>)
    requires
        catalog.compositors@.len() + catalog.browsers@.len() + catalog.editors@.len()
            + catalog.terminals@.len() <= usize::MAX,
    ensures
        r is None <==> s.selected_disk is None,
        r is Some ==> {
            &&& items_view(r->0.system@) == system_items(*s, opt_text(gpu_summary))
            &&& items_view(r->0.packages@) == package_items(*s, *catalog)
            &&& r->0.selected_packages == picked_count(*s, *catalog)
        },
{
    let disk = match &s.selected_disk {
        Some(d) => d,
        None => {
            return None;
        },
    };
    let compositors = picked_choice_labels(&catalog.compositors, &s.app_flags.compositors);
    let browsers = picked_choice_labels(&catalog.browsers, &s.app_flags.browsers);
    let editors = picked_choice_labels(&catalog.editors, &s.app_flags.editors);
    let terminals = picked_choice_labels(&catalog.terminals, &s.app_flags.terminals);
    let system = vec![
        item(
            "Network",
            match &s.network_label {
                Some(l) => l.clone(),
                None => text("Not connected"),
            },
        ),
        item("Disk", disk.label()),
        item(
            "Filesystem",
            if s.encrypt_disk {
                text("Btrfs (LUKS encrypted)")
            } else {
                text("Btrfs")
            },
        ),
        item(
            "GPU",
            match gpu_summary {
                Some(g) => g,
                None => text("Not detected"),
            },
        ),
        item(
            "Swap",
            if s.swap_enabled {
                text("Enabled (zram)")
            } else {
                text("Disabled")
            },
        ),
        item("Hostname", s.hostname.clone()),
        item("Username", s.username.clone()),
        item("Keyboard", s.keymap.clone()),
        item("Timezone", s.timezone.clone()),
    ];
    let packages = vec![
        item("Compositor", kind_text(&compositors)),
        item("Browsers", kind_text(&browsers)),
        item("Editors", kind_text(&editors)),
        item("Terminals", kind_text(&terminals)),
    ];
    proof {
        assert(items_view(system@) =~= system_items(*s, opt_text(gpu_summary)));
        assert(items_view(packages@) =~= package_items(*s, *catalog));
    }
    proof {
        lemma_picked_labels_len(catalog.compositors@, s.app_flags.compositors@, catalog.compositors@.len());
        lemma_picked_labels_len(catalog.browsers@, s.app_flags.browsers@, catalog.browsers@.len());
        lemma_picked_labels_len(catalog.editors@, s.app_flags.editors@, catalog.editors@.len());
        lemma_picked_labels_len(catalog.terminals@, s.app_flags.terminals@, catalog.terminals@.len());
    }
    let count = compositors.len() + browsers.len() + editors.len() + terminals.len();
    Some(Review { system, packages, selected_packages: count })
}

} // verus!
