//! Boot banners and notices on the console.
use vstd::prelude::*;
use crate::ironveil_ui::cli::colors;
use crate::nexis_kernel::drivers::vga::{Console, say, vprintln_impl};
use crate::text::{concat_views, push_str, pad_right, pad_left, padded_right, padded_left, lemma_concat_single};

verus! {

/// The text of lines, each followed by a line break.
pub open spec fn lines_text(lines: Seq<Seq<&str>>) -> Seq<char>
    decreases lines.len(),
{
    if lines.len() == 0 {
        Seq::empty()
    } else {
        lines_text(lines.drop_last()) + concat_views(lines.last()) + seq!['\n']
    }
}

/// The lines of `display_boot_banner`.
pub open spec fn boot_banner_lines() -> Seq<Seq<&'static str>> {
    seq![
        seq![""],
        seq![colors::PRIMARY, colors::BOLD, "╔══════════════════════════════════════════════════════════════════════════════╗", colors::RESET],
        seq![colors::PRIMARY, colors::BOLD, "║                                                                              ║", colors::RESET],
        seq![colors::PRIMARY, colors::BOLD, "║", colors::RESET, "  ██╗██████╗  ██████╗ ███╗   ██╗██╗   ██╗███████╗██╗██╗                    ", colors::PRIMARY, colors::BOLD, "║", colors::RESET],
        seq![colors::PRIMARY, colors::BOLD, "║", colors::RESET, "  ██║██╔══██╗██╔═══██╗████╗  ██║██║   ██║██╔════╝██║██║                    ", colors::PRIMARY, colors::BOLD, "║", colors::RESET],
        seq![colors::PRIMARY, colors::BOLD, "║", colors::RESET, "  ██║██████╔╝██║   ██║██╔██╗ ██║██║   ██║█████╗  ██║██║                    ", colors::PRIMARY, colors::BOLD, "║", colors::RESET],
        seq![colors::PRIMARY, colors::BOLD, "║", colors::RESET, "  ██║██╔══██╗██║   ██║██║╚██╗██║╚██╗ ██╔╝██╔══╝  ██║██║                    ", colors::PRIMARY, colors::BOLD, "║", colors::RESET],
        seq![colors::PRIMARY, colors::BOLD, "║", colors::RESET, "  ██║██║  ██║╚██████╔╝██║ ╚████║ ╚████╔╝ ███████╗██║███████╗               ", colors::PRIMARY, colors::BOLD, "║", colors::RESET],
        seq![colors::PRIMARY, colors::BOLD, "║", colors::RESET, "  ╚═╝╚═╝  ╚═╝ ╚═════╝ ╚═╝  ╚═══╝  ╚═══╝  ╚══════╝╚═╝╚══════╝               ", colors::PRIMARY, colors::BOLD, "║", colors::RESET],
        seq![colors::PRIMARY, colors::BOLD, "║                                                                              ║", colors::RESET],
        seq![colors::PRIMARY, colors::BOLD, "║", colors::RESET, "                    Privacy-Focused Live Operating System", colors::RESET, "                    ", colors::PRIMARY, colors::BOLD, "║", colors::RESET],
        seq![colors::PRIMARY, colors::BOLD, "║", colors::RESET, "                          Built on Nexis Kernel", colors::RESET, "                             ", colors::PRIMARY, colors::BOLD, "║", colors::RESET],
        seq![colors::PRIMARY, colors::BOLD, "║                                                                              ║", colors::RESET],
        seq![colors::PRIMARY, colors::BOLD, "╚══════════════════════════════════════════════════════════════════════════════╝", colors::RESET],
        seq![""],
    ]
}

/// The boot banner: the IronVeil logo in a double-lined frame.
#[verifier::rlimit(60)]
pub fn display_boot_banner(con: &mut Console)
    requires
        old(con).wf(),
    ensures
        final(con).wf(),
        final(con).serial@ == old(con).serial@ + lines_text(boot_banner_lines()),
{
    let ghost start = con.serial@;
    proof {
        reveal_strlit("");
        lemma_concat_single("");
    }
    vprintln_impl(con, "");
    proof {
        assert(lines_text(boot_banner_lines().subrange(0, 0)) =~= Seq::<char>::empty());
        assert(boot_banner_lines().subrange(0, 1).drop_last() =~= boot_banner_lines().subrange(0, 0));
        assert(con.serial@ =~= start + lines_text(boot_banner_lines().subrange(0, 1)));
    }
    say(con, &[colors::PRIMARY, colors::BOLD, "╔══════════════════════════════════════════════════════════════════════════════╗", colors::RESET]);
    proof {
        assert(boot_banner_lines().subrange(0, 2).drop_last() =~= boot_banner_lines().subrange(0, 1));
        assert(con.serial@ =~= start + lines_text(boot_banner_lines().subrange(0, 2)));
    }
    say(con, &[colors::PRIMARY, colors::BOLD, "║                                                                              ║", colors::RESET]);
    proof {
        assert(boot_banner_lines().subrange(0, 3).drop_last() =~= boot_banner_lines().subrange(0, 2));
        assert(con.serial@ =~= start + lines_text(boot_banner_lines().subrange(0, 3)));
    }
    say(con, &[colors::PRIMARY, colors::BOLD, "║", colors::RESET, "  ██╗██████╗  ██████╗ ███╗   ██╗██╗   ██╗███████╗██╗██╗                    ", colors::PRIMARY, colors::BOLD, "║", colors::RESET]);
    proof {
        assert(boot_banner_lines().subrange(0, 4).drop_last() =~= boot_banner_lines().subrange(0, 3));
        assert(con.serial@ =~= start + lines_text(boot_banner_lines().subrange(0, 4)));
    }
    say(con, &[colors::PRIMARY, colors::BOLD, "║", colors::RESET, "  ██║██╔══██╗██╔═══██╗████╗  ██║██║   ██║██╔════╝██║██║                    ", colors::PRIMARY, colors::BOLD, "║", colors::RESET]);
    proof {
        assert(boot_banner_lines().subrange(0, 5).drop_last() =~= boot_banner_lines().subrange(0, 4));
        assert(con.serial@ =~= start + lines_text(boot_banner_lines().subrange(0, 5)));
    }
    say(con, &[colors::PRIMARY, colors::BOLD, "║", colors::RESET, "  ██║██████╔╝██║   ██║██╔██╗ ██║██║   ██║█████╗  ██║██║                    ", colors::PRIMARY, colors::BOLD, "║", colors::RESET]);
    proof {
        assert(boot_banner_lines().subrange(0, 6).drop_last() =~= boot_banner_lines().subrange(0, 5));
        assert(con.serial@ =~= start + lines_text(boot_banner_lines().subrange(0, 6)));
    }
    say(con, &[colors::PRIMARY, colors::BOLD, "║", colors::RESET, "  ██║██╔══██╗██║   ██║██║╚██╗██║╚██╗ ██╔╝██╔══╝  ██║██║                    ", colors::PRIMARY, colors::BOLD, "║", colors::RESET]);
    proof {
        assert(boot_banner_lines().subrange(0, 7).drop_last() =~= boot_banner_lines().subrange(0, 6));
        assert(con.serial@ =~= start + lines_text(boot_banner_lines().subrange(0, 7)));
    }
    say(con, &[colors::PRIMARY, colors::BOLD, "║", colors::RESET, "  ██║██║  ██║╚██████╔╝██║ ╚████║ ╚████╔╝ ███████╗██║███████╗               ", colors::PRIMARY, colors::BOLD, "║", colors::RESET]);
    proof {
        assert(boot_banner_lines().subrange(0, 8).drop_last() =~= boot_banner_lines().subrange(0, 7));
        assert(con.serial@ =~= start + lines_text(boot_banner_lines().subrange(0, 8)));
    }
    say(con, &[colors::PRIMARY, colors::BOLD, "║", colors::RESET, "  ╚═╝╚═╝  ╚═╝ ╚═════╝ ╚═╝  ╚═══╝  ╚═══╝  ╚══════╝╚═╝╚══════╝               ", colors::PRIMARY, colors::BOLD, "║", colors::RESET]);
    proof {
        assert(boot_banner_lines().subrange(0, 9).drop_last() =~= boot_banner_lines().subrange(0, 8));
        assert(con.serial@ =~= start + lines_text(boot_banner_lines().subrange(0, 9)));
    }
    say(con, &[colors::PRIMARY, colors::BOLD, "║                                                                              ║", colors::RESET]);
    proof {
        assert(boot_banner_lines().subrange(0, 10).drop_last() =~= boot_banner_lines().subrange(0, 9));
        assert(con.serial@ =~= start + lines_text(boot_banner_lines().subrange(0, 10)));
    }
    say(con, &[colors::PRIMARY, colors::BOLD, "║", colors::RESET, "                    Privacy-Focused Live Operating System", colors::RESET, "                    ", colors::PRIMARY, colors::BOLD, "║", colors::RESET]);
    proof {
        assert(boot_banner_lines().subrange(0, 11).drop_last() =~= boot_banner_lines().subrange(0, 10));
        assert(con.serial@ =~= start + lines_text(boot_banner_lines().subrange(0, 11)));
    }
    say(con, &[colors::PRIMARY, colors::BOLD, "║", colors::RESET, "                          Built on Nexis Kernel", colors::RESET, "                             ", colors::PRIMARY, colors::BOLD, "║", colors::RESET]);
    proof {
        assert(boot_banner_lines().subrange(0, 12).drop_last() =~= boot_banner_lines().subrange(0, 11));
        assert(con.serial@ =~= start + lines_text(boot_banner_lines().subrange(0, 12)));
    }
    say(con, &[colors::PRIMARY, colors::BOLD, "║                                                                              ║", colors::RESET]);
    proof {
        assert(boot_banner_lines().subrange(0, 13).drop_last() =~= boot_banner_lines().subrange(0, 12));
        assert(con.serial@ =~= start + lines_text(boot_banner_lines().subrange(0, 13)));
    }
    say(con, &[colors::PRIMARY, colors::BOLD, "╚══════════════════════════════════════════════════════════════════════════════╝", colors::RESET]);
    proof {
        assert(boot_banner_lines().subrange(0, 14).drop_last() =~= boot_banner_lines().subrange(0, 13));
        assert(con.serial@ =~= start + lines_text(boot_banner_lines().subrange(0, 14)));
    }
    vprintln_impl(con, "");
    proof {
        assert(boot_banner_lines().subrange(0, 15).drop_last() =~= boot_banner_lines().subrange(0, 14));
        assert(con.serial@ =~= start + lines_text(boot_banner_lines().subrange(0, 15)));
    }
    assert(boot_banner_lines().subrange(0, 15) =~= boot_banner_lines());
}

/// The lines of `display_welcome_banner`.
pub open spec fn welcome_banner_lines() -> Seq<Seq<&'static str>> {
    seq![
        seq![""],
        seq![colors::SECONDARY, colors::BOLD, "┌─────────────────────────────────────────────────────────┐", colors::RESET],
        seq![colors::SECONDARY, colors::BOLD, "│", colors::PRIMARY, "   ██╗██████╗  ██████╗ ███╗   ██╗██╗   ██╗███████╗██╗██╗  ", colors::SECONDARY, colors::BOLD, "│", colors::RESET],
        seq![colors::SECONDARY, colors::BOLD, "│", colors::PRIMARY, "   ██║██╔══██╗██╔═══██╗████╗  ██║██║   ██║██╔════╝██║██║  ", colors::SECONDARY, colors::BOLD, "│", colors::RESET],
        seq![colors::SECONDARY, colors::BOLD, "│", colors::PRIMARY, "   ██║██████╔╝██║   ██║██╔██╗ ██║██║   ██║█████╗  ██║██║  ", colors::SECONDARY, colors::BOLD, "│", colors::RESET],
        seq![colors::SECONDARY, colors::BOLD, "│", colors::PRIMARY, "   ██║██╔══██╗██║   ██║██║╚██╗██║╚██╗ ██╔╝██╔══╝  ██║██║  ", colors::SECONDARY, colors::BOLD, "│", colors::RESET],
        seq![colors::SECONDARY, colors::BOLD, "│", colors::PRIMARY, "   ██║██║  ██║╚██████╔╝██║ ╚████║ ╚████╔╝ ███████╗██║██║  ", colors::SECONDARY, colors::BOLD, "│", colors::RESET],
        seq![colors::SECONDARY, colors::BOLD, "│", colors::PRIMARY, "   ╚═╝╚═╝  ╚═╝ ╚═════╝ ╚═╝  ╚═══╝  ╚═══╝  ╚══════╝╚═╝╚═╝  ", colors::SECONDARY, colors::BOLD, "│", colors::RESET],
        seq![colors::SECONDARY, colors::BOLD, "├─────────────────────────────────────────────────────────┤", colors::RESET],
        seq![colors::SECONDARY, colors::BOLD, "│", colors::RESET, "             Privacy-Focused Live OS v0.1.0-alpha", colors::RESET, "         ", colors::SECONDARY, colors::BOLD, "│", colors::RESET],
        seq![colors::SECONDARY, colors::BOLD, "│", colors::DIM, "                Type 'help' for commands", colors::RESET, "                 ", colors::SECONDARY, colors::BOLD, "│", colors::RESET],
        seq![colors::SECONDARY, colors::BOLD, "└─────────────────────────────────────────────────────────┘", colors::RESET],
        seq![""],
    ]
}

/// The compact welcome banner shown when the shell starts.
#[verifier::rlimit(60)]
pub fn display_welcome_banner(con: &mut Console)
    requires
        old(con).wf(),
    ensures
        final(con).wf(),
        final(con).serial@ == old(con).serial@ + lines_text(welcome_banner_lines()),
{
    let ghost start = con.serial@;
    proof {
        reveal_strlit("");
        lemma_concat_single("");
    }
    vprintln_impl(con, "");
    proof {
        assert(lines_text(welcome_banner_lines().subrange(0, 0)) =~= Seq::<char>::empty());
        assert(welcome_banner_lines().subrange(0, 1).drop_last() =~= welcome_banner_lines().subrange(0, 0));
        assert(con.serial@ =~= start + lines_text(welcome_banner_lines().subrange(0, 1)));
    }
    say(con, &[colors::SECONDARY, colors::BOLD, "┌─────────────────────────────────────────────────────────┐", colors::RESET]);
    proof {
        assert(welcome_banner_lines().subrange(0, 2).drop_last() =~= welcome_banner_lines().subrange(0, 1));
        assert(con.serial@ =~= start + lines_text(welcome_banner_lines().subrange(0, 2)));
    }
    say(con, &[colors::SECONDARY, colors::BOLD, "│", colors::PRIMARY, "   ██╗██████╗  ██████╗ ███╗   ██╗██╗   ██╗███████╗██╗██╗  ", colors::SECONDARY, colors::BOLD, "│", colors::RESET]);
    proof {
        assert(welcome_banner_lines().subrange(0, 3).drop_last() =~= welcome_banner_lines().subrange(0, 2));
        assert(con.serial@ =~= start + lines_text(welcome_banner_lines().subrange(0, 3)));
    }
    say(con, &[colors::SECONDARY, colors::BOLD, "│", colors::PRIMARY, "   ██║██╔══██╗██╔═══██╗████╗  ██║██║   ██║██╔════╝██║██║  ", colors::SECONDARY, colors::BOLD, "│", colors::RESET]);
    proof {
        assert(welcome_banner_lines().subrange(0, 4).drop_last() =~= welcome_banner_lines().subrange(0, 3));
        assert(con.serial@ =~= start + lines_text(welcome_banner_lines().subrange(0, 4)));
    }
    say(con, &[colors::SECONDARY, colors::BOLD, "│", colors::PRIMARY, "   ██║██████╔╝██║   ██║██╔██╗ ██║██║   ██║█████╗  ██║██║  ", colors::SECONDARY, colors::BOLD, "│", colors::RESET]);
    proof {
        assert(welcome_banner_lines().subrange(0, 5).drop_last() =~= welcome_banner_lines().subrange(0, 4));
        assert(con.serial@ =~= start + lines_text(welcome_banner_lines().subrange(0, 5)));
    }
    say(con, &[colors::SECONDARY, colors::BOLD, "│", colors::PRIMARY, "   ██║██╔══██╗██║   ██║██║╚██╗██║╚██╗ ██╔╝██╔══╝  ██║██║  ", colors::SECONDARY, colors::BOLD, "│", colors::RESET]);
    proof {
        assert(welcome_banner_lines().subrange(0, 6).drop_last() =~= welcome_banner_lines().subrange(0, 5));
        assert(con.serial@ =~= start + lines_text(welcome_banner_lines().subrange(0, 6)));
    }
    say(con, &[colors::SECONDARY, colors::BOLD, "│", colors::PRIMARY, "   ██║██║  ██║╚██████╔╝██║ ╚████║ ╚████╔╝ ███████╗██║██║  ", colors::SECONDARY, colors::BOLD, "│", colors::RESET]);
    proof {
        assert(welcome_banner_lines().subrange(0, 7).drop_last() =~= welcome_banner_lines().subrange(0, 6));
        assert(con.serial@ =~= start + lines_text(welcome_banner_lines().subrange(0, 7)));
    }
    say(con, &[colors::SECONDARY, colors::BOLD, "│", colors::PRIMARY, "   ╚═╝╚═╝  ╚═╝ ╚═════╝ ╚═╝  ╚═══╝  ╚═══╝  ╚══════╝╚═╝╚═╝  ", colors::SECONDARY, colors::BOLD, "│", colors::RESET]);
    proof {
        assert(welcome_banner_lines().subrange(0, 8).drop_last() =~= welcome_banner_lines().subrange(0, 7));
        assert(con.serial@ =~= start + lines_text(welcome_banner_lines().subrange(0, 8)));
    }
    say(con, &[colors::SECONDARY, colors::BOLD, "├─────────────────────────────────────────────────────────┤", colors::RESET]);
    proof {
        assert(welcome_banner_lines().subrange(0, 9).drop_last() =~= welcome_banner_lines().subrange(0, 8));
        assert(con.serial@ =~= start + lines_text(welcome_banner_lines().subrange(0, 9)));
    }
    say(con, &[colors::SECONDARY, colors::BOLD, "│", colors::RESET, "             Privacy-Focused Live OS v0.1.0-alpha", colors::RESET, "         ", colors::SECONDARY, colors::BOLD, "│", colors::RESET]);
    proof {
        assert(welcome_banner_lines().subrange(0, 10).drop_last() =~= welcome_banner_lines().subrange(0, 9));
        assert(con.serial@ =~= start + lines_text(welcome_banner_lines().subrange(0, 10)));
    }
    say(con, &[colors::SECONDARY, colors::BOLD, "│", colors::DIM, "                Type 'help' for commands", colors::RESET, "                 ", colors::SECONDARY, colors::BOLD, "│", colors::RESET]);
    proof {
        assert(welcome_banner_lines().subrange(0, 11).drop_last() =~= welcome_banner_lines().subrange(0, 10));
        assert(con.serial@ =~= start + lines_text(welcome_banner_lines().subrange(0, 11)));
    }
    say(con, &[colors::SECONDARY, colors::BOLD, "└─────────────────────────────────────────────────────────┘", colors::RESET]);
    proof {
        assert(welcome_banner_lines().subrange(0, 12).drop_last() =~= welcome_banner_lines().subrange(0, 11));
        assert(con.serial@ =~= start + lines_text(welcome_banner_lines().subrange(0, 12)));
    }
    vprintln_impl(con, "");
    proof {
        assert(welcome_banner_lines().subrange(0, 13).drop_last() =~= welcome_banner_lines().subrange(0, 12));
        assert(con.serial@ =~= start + lines_text(welcome_banner_lines().subrange(0, 13)));
    }
    assert(welcome_banner_lines().subrange(0, 13) =~= welcome_banner_lines());
}

/// The lines of `display_compact_logo`.
pub open spec fn compact_logo_lines() -> Seq<Seq<&'static str>> {
    seq![
        seq![colors::PRIMARY, colors::BOLD, "  ███████╗██████╗  ██████╗ ███╗   ██╗", colors::RESET],
        seq![colors::PRIMARY, colors::BOLD, "  ██╔════╝██╔══██╗██╔═══██╗████╗  ██║", colors::RESET],
        seq![colors::PRIMARY, colors::BOLD, "  █████╗  ██████╔╝██║   ██║██╔██╗ ██║", colors::RESET],
        seq![colors::PRIMARY, colors::BOLD, "  ██╔══╝  ██╔══██╗██║   ██║██║╚██╗██║", colors::RESET],
        seq![colors::PRIMARY, colors::BOLD, "  ██║     ██║  ██║╚██████╔╝██║ ╚████║", colors::RESET],
        seq![colors::PRIMARY, colors::BOLD, "  ╚═╝     ╚═╝  ╚═╝ ╚═════╝ ╚═╝  ╚═══╝", colors::RESET],
        seq![""],
        seq![colors::SECONDARY, colors::BOLD, "      ██╗   ██╗███████╗██╗██╗     ", colors::RESET],
        seq![colors::SECONDARY, colors::BOLD, "      ██║   ██║██╔════╝██║██║     ", colors::RESET],
        seq![colors::SECONDARY, colors::BOLD, "      ██║   ██║█████╗  ██║██║     ", colors::RESET],
        seq![colors::SECONDARY, colors::BOLD, "      ╚██╗ ██╔╝██╔══╝  ██║██║     ", colors::RESET],
        seq![colors::SECONDARY, colors::BOLD, "       ╚████╔╝ ███████╗██║███████╗", colors::RESET],
        seq![colors::SECONDARY, colors::BOLD, "        ╚═══╝  ╚══════╝╚═╝╚══════╝", colors::RESET],
    ]
}

/// The compact two-word logo.
#[verifier::rlimit(60)]
pub fn display_compact_logo(con: &mut Console)
    requires
        old(con).wf(),
    ensures
        final(con).wf(),
        final(con).serial@ == old(con).serial@ + lines_text(compact_logo_lines()),
{
    let ghost start = con.serial@;
    proof {
        reveal_strlit("");
        lemma_concat_single("");
    }
    say(con, &[colors::PRIMARY, colors::BOLD, "  ███████╗██████╗  ██████╗ ███╗   ██╗", colors::RESET]);
    proof {
        assert(lines_text(compact_logo_lines().subrange(0, 0)) =~= Seq::<char>::empty());
        assert(compact_logo_lines().subrange(0, 1).drop_last() =~= compact_logo_lines().subrange(0, 0));
        assert(con.serial@ =~= start + lines_text(compact_logo_lines().subrange(0, 1)));
    }
    say(con, &[colors::PRIMARY, colors::BOLD, "  ██╔════╝██╔══██╗██╔═══██╗████╗  ██║", colors::RESET]);
    proof {
        assert(compact_logo_lines().subrange(0, 2).drop_last() =~= compact_logo_lines().subrange(0, 1));
        assert(con.serial@ =~= start + lines_text(compact_logo_lines().subrange(0, 2)));
    }
    say(con, &[colors::PRIMARY, colors::BOLD, "  █████╗  ██████╔╝██║   ██║██╔██╗ ██║", colors::RESET]);
    proof {
        assert(compact_logo_lines().subrange(0, 3).drop_last() =~= compact_logo_lines().subrange(0, 2));
        assert(con.serial@ =~= start + lines_text(compact_logo_lines().subrange(0, 3)));
    }
    say(con, &[colors::PRIMARY, colors::BOLD, "  ██╔══╝  ██╔══██╗██║   ██║██║╚██╗██║", colors::RESET]);
    proof {
        assert(compact_logo_lines().subrange(0, 4).drop_last() =~= compact_logo_lines().subrange(0, 3));
        assert(con.serial@ =~= start + lines_text(compact_logo_lines().subrange(0, 4)));
    }
    say(con, &[colors::PRIMARY, colors::BOLD, "  ██║     ██║  ██║╚██████╔╝██║ ╚████║", colors::RESET]);
    proof {
        assert(compact_logo_lines().subrange(0, 5).drop_last() =~= compact_logo_lines().subrange(0, 4));
        assert(con.serial@ =~= start + lines_text(compact_logo_lines().subrange(0, 5)));
    }
    say(con, &[colors::PRIMARY, colors::BOLD, "  ╚═╝     ╚═╝  ╚═╝ ╚═════╝ ╚═╝  ╚═══╝", colors::RESET]);
    proof {
        assert(compact_logo_lines().subrange(0, 6).drop_last() =~= compact_logo_lines().subrange(0, 5));
        assert(con.serial@ =~= start + lines_text(compact_logo_lines().subrange(0, 6)));
    }
    vprintln_impl(con, "");
    proof {
        assert(compact_logo_lines().subrange(0, 7).drop_last() =~= compact_logo_lines().subrange(0, 6));
        assert(con.serial@ =~= start + lines_text(compact_logo_lines().subrange(0, 7)));
    }
    say(con, &[colors::SECONDARY, colors::BOLD, "      ██╗   ██╗███████╗██╗██╗     ", colors::RESET]);
    proof {
        assert(compact_logo_lines().subrange(0, 8).drop_last() =~= compact_logo_lines().subrange(0, 7));
        assert(con.serial@ =~= start + lines_text(compact_logo_lines().subrange(0, 8)));
    }
    say(con, &[colors::SECONDARY, colors::BOLD, "      ██║   ██║██╔════╝██║██║     ", colors::RESET]);
    proof {
        assert(compact_logo_lines().subrange(0, 9).drop_last() =~= compact_logo_lines().subrange(0, 8));
        assert(con.serial@ =~= start + lines_text(compact_logo_lines().subrange(0, 9)));
    }
    say(con, &[colors::SECONDARY, colors::BOLD, "      ██║   ██║█████╗  ██║██║     ", colors::RESET]);
    proof {
        assert(compact_logo_lines().subrange(0, 10).drop_last() =~= compact_logo_lines().subrange(0, 9));
        assert(con.serial@ =~= start + lines_text(compact_logo_lines().subrange(0, 10)));
    }
    say(con, &[colors::SECONDARY, colors::BOLD, "      ╚██╗ ██╔╝██╔══╝  ██║██║     ", colors::RESET]);
    proof {
        assert(compact_logo_lines().subrange(0, 11).drop_last() =~= compact_logo_lines().subrange(0, 10));
        assert(con.serial@ =~= start + lines_text(compact_logo_lines().subrange(0, 11)));
    }
    say(con, &[colors::SECONDARY, colors::BOLD, "       ╚████╔╝ ███████╗██║███████╗", colors::RESET]);
    proof {
        assert(compact_logo_lines().subrange(0, 12).drop_last() =~= compact_logo_lines().subrange(0, 11));
        assert(con.serial@ =~= start + lines_text(compact_logo_lines().subrange(0, 12)));
    }
    say(con, &[colors::SECONDARY, colors::BOLD, "        ╚═══╝  ╚══════╝╚═╝╚══════╝", colors::RESET]);
    proof {
        assert(compact_logo_lines().subrange(0, 13).drop_last() =~= compact_logo_lines().subrange(0, 12));
        assert(con.serial@ =~= start + lines_text(compact_logo_lines().subrange(0, 13)));
    }
    assert(compact_logo_lines().subrange(0, 13) =~= compact_logo_lines());
}

/// The lines of `display_privacy_notice`.
pub open spec fn privacy_notice_lines() -> Seq<Seq<&'static str>> {
    seq![
        seq![""],
        seq![colors::WARNING, colors::BOLD, "┌─ Privacy Notice ──────────────────────────────────────┐", colors::RESET],
        seq![colors::WARNING, colors::BOLD, "│", colors::RESET, "                       IMPORTANT", colors::RESET, "                       ", colors::WARNING, colors::BOLD, "│", colors::RESET],
        seq![colors::WARNING, colors::BOLD, "│                                                      │", colors::RESET],
        seq![colors::WARNING, colors::BOLD, "│", colors::RESET, " This is a privacy-focused live operating system.", colors::RESET, "    ", colors::WARNING, colors::BOLD, "│", colors::RESET],
        seq![colors::WARNING, colors::BOLD, "│", colors::RESET, " • No data is written to permanent storage", colors::RESET, "          ", colors::WARNING, colors::BOLD, "│", colors::RESET],
        seq![colors::WARNING, colors::BOLD, "│", colors::RESET, " • Network traffic routing through privacy stack", colors::RESET, "    ", colors::WARNING, colors::BOLD, "│", colors::RESET],
        seq![colors::WARNING, colors::BOLD, "│", colors::RESET, " • MAC addresses are randomized on boot", colors::RESET, "             ", colors::WARNING, colors::BOLD, "│", colors::RESET],
        seq![colors::WARNING, colors::BOLD, "│", colors::RESET, " • Use 'help' for privacy and security commands", colors::RESET, "     ", colors::WARNING, colors::BOLD, "│", colors::RESET],
        seq![colors::WARNING, colors::BOLD, "│                                                      │", colors::RESET],
        seq![colors::WARNING, colors::BOLD, "└──────────────────────────────────────────────────────┘", colors::RESET],
        seq![""],
    ]
}

/// The privacy notice.
#[verifier::rlimit(60)]
pub fn display_privacy_notice(con: &mut Console)
    requires
        old(con).wf(),
    ensures
        final(con).wf(),
        final(con).serial@ == old(con).serial@ + lines_text(privacy_notice_lines()),
{
    let ghost start = con.serial@;
    proof {
        reveal_strlit("");
        lemma_concat_single("");
    }
    vprintln_impl(con, "");
    proof {
        assert(lines_text(privacy_notice_lines().subrange(0, 0)) =~= Seq::<char>::empty());
        assert(privacy_notice_lines().subrange(0, 1).drop_last() =~= privacy_notice_lines().subrange(0, 0));
        assert(con.serial@ =~= start + lines_text(privacy_notice_lines().subrange(0, 1)));
    }
    say(con, &[colors::WARNING, colors::BOLD, "┌─ Privacy Notice ──────────────────────────────────────┐", colors::RESET]);
    proof {
        assert(privacy_notice_lines().subrange(0, 2).drop_last() =~= privacy_notice_lines().subrange(0, 1));
        assert(con.serial@ =~= start + lines_text(privacy_notice_lines().subrange(0, 2)));
    }
    say(con, &[colors::WARNING, colors::BOLD, "│", colors::RESET, "                       IMPORTANT", colors::RESET, "                       ", colors::WARNING, colors::BOLD, "│", colors::RESET]);
    proof {
        assert(privacy_notice_lines().subrange(0, 3).drop_last() =~= privacy_notice_lines().subrange(0, 2));
        assert(con.serial@ =~= start + lines_text(privacy_notice_lines().subrange(0, 3)));
    }
    say(con, &[colors::WARNING, colors::BOLD, "│                                                      │", colors::RESET]);
    proof {
        assert(privacy_notice_lines().subrange(0, 4).drop_last() =~= privacy_notice_lines().subrange(0, 3));
        assert(con.serial@ =~= start + lines_text(privacy_notice_lines().subrange(0, 4)));
    }
    say(con, &[colors::WARNING, colors::BOLD, "│", colors::RESET, " This is a privacy-focused live operating system.", colors::RESET, "    ", colors::WARNING, colors::BOLD, "│", colors::RESET]);
    proof {
        assert(privacy_notice_lines().subrange(0, 5).drop_last() =~= privacy_notice_lines().subrange(0, 4));
        assert(con.serial@ =~= start + lines_text(privacy_notice_lines().subrange(0, 5)));
    }
    say(con, &[colors::WARNING, colors::BOLD, "│", colors::RESET, " • No data is written to permanent storage", colors::RESET, "          ", colors::WARNING, colors::BOLD, "│", colors::RESET]);
    proof {
        assert(privacy_notice_lines().subrange(0, 6).drop_last() =~= privacy_notice_lines().subrange(0, 5));
        assert(con.serial@ =~= start + lines_text(privacy_notice_lines().subrange(0, 6)));
    }
    say(con, &[colors::WARNING, colors::BOLD, "│", colors::RESET, " • Network traffic routing through privacy stack", colors::RESET, "    ", colors::WARNING, colors::BOLD, "│", colors::RESET]);
    proof {
        assert(privacy_notice_lines().subrange(0, 7).drop_last() =~= privacy_notice_lines().subrange(0, 6));
        assert(con.serial@ =~= start + lines_text(privacy_notice_lines().subrange(0, 7)));
    }
    say(con, &[colors::WARNING, colors::BOLD, "│", colors::RESET, " • MAC addresses are randomized on boot", colors::RESET, "             ", colors::WARNING, colors::BOLD, "│", colors::RESET]);
    proof {
        assert(privacy_notice_lines().subrange(0, 8).drop_last() =~= privacy_notice_lines().subrange(0, 7));
        assert(con.serial@ =~= start + lines_text(privacy_notice_lines().subrange(0, 8)));
    }
    say(con, &[colors::WARNING, colors::BOLD, "│", colors::RESET, " • Use 'help' for privacy and security commands", colors::RESET, "     ", colors::WARNING, colors::BOLD, "│", colors::RESET]);
    proof {
        assert(privacy_notice_lines().subrange(0, 9).drop_last() =~= privacy_notice_lines().subrange(0, 8));
        assert(con.serial@ =~= start + lines_text(privacy_notice_lines().subrange(0, 9)));
    }
    say(con, &[colors::WARNING, colors::BOLD, "│                                                      │", colors::RESET]);
    proof {
        assert(privacy_notice_lines().subrange(0, 10).drop_last() =~= privacy_notice_lines().subrange(0, 9));
        assert(con.serial@ =~= start + lines_text(privacy_notice_lines().subrange(0, 10)));
    }
    say(con, &[colors::WARNING, colors::BOLD, "└──────────────────────────────────────────────────────┘", colors::RESET]);
    proof {
        assert(privacy_notice_lines().subrange(0, 11).drop_last() =~= privacy_notice_lines().subrange(0, 10));
        assert(con.serial@ =~= start + lines_text(privacy_notice_lines().subrange(0, 11)));
    }
    vprintln_impl(con, "");
    proof {
        assert(privacy_notice_lines().subrange(0, 12).drop_last() =~= privacy_notice_lines().subrange(0, 11));
        assert(con.serial@ =~= start + lines_text(privacy_notice_lines().subrange(0, 12)));
    }
    assert(privacy_notice_lines().subrange(0, 12) =~= privacy_notice_lines());
}

/// A boot status line: the component left-aligned in 25 columns and the
/// status right-aligned in 20, a filled or hollow dot for success or not.
pub open spec fn status_line(component: Seq<char>, status: Seq<char>, success: bool) -> Seq<char> {
    colors::ACCENT@ + colors::BOLD@ + "│"@ + colors::RESET@ + (if success { colors::SUCCESS@ } else { colors::WARNING@ })
        + (if success { "●"@ } else { "○"@ }) + seq![' '] + padded_right(component, 25) + seq![' '] + padded_left(status, 20)
        + seq![' '] + colors::RESET@ + colors::ACCENT@ + colors::BOLD@ + "│"@ + colors::RESET@
}

fn print_status_line(con: &mut Console, component: &str, status: &str, success: bool)
    requires
        old(con).wf(),
    ensures
        final(con).wf(),
        final(con).serial@ == old(con).serial@ + status_line(component@, status@, success) + seq!['\n'],
{
    let indicator = if success { "●" } else { "○" };
    let color = if success { colors::SUCCESS } else { colors::WARNING };
    let mut line = String::new();
    push_str(&mut line, colors::ACCENT);
    push_str(&mut line, colors::BOLD);
    push_str(&mut line, "│");
    push_str(&mut line, colors::RESET);
    push_str(&mut line, color);
    push_str(&mut line, indicator);
    push_str(&mut line, " ");
    pad_right(&mut line, component, 25);
    push_str(&mut line, " ");
    pad_left(&mut line, status, 20);
    push_str(&mut line, " ");
    push_str(&mut line, colors::RESET);
    push_str(&mut line, colors::ACCENT);
    push_str(&mut line, colors::BOLD);
    push_str(&mut line, "│");
    push_str(&mut line, colors::RESET);
    proof {
        reveal_strlit(" ");
    }
    assert(line@ =~= status_line(component@, status@, success));
    vprintln_impl(con, line.as_str());
}

/// The boot status of each component.
pub fn display_boot_status(con: &mut Console)
    requires
        old(con).wf(),
    ensures
        final(con).wf(),
        final(con).serial@ == old(con).serial@ + seq!['\n'] + concat_views(seq![colors::ACCENT, colors::BOLD,
            "┌─ Boot Status ─────────────────────────────────────────┐", colors::RESET]) + seq!['\n']
            + status_line("Kernel"@, "Loaded"@, true) + seq!['\n']
            + status_line("Memory Manager"@, "Initialized"@, true) + seq!['\n']
            + status_line("Interrupt Controller"@, "Active"@, true) + seq!['\n']
            + status_line("Keyboard Driver"@, "Ready"@, true) + seq!['\n']
            + status_line("VGA Driver"@, "Active"@, true) + seq!['\n']
            + status_line("Scheduler"@, "Running"@, true) + seq!['\n']
            + status_line("Privacy Stack"@, "Loading"@, false) + seq!['\n']
            + status_line("Network Interface"@, "Detecting"@, false) + seq!['\n']
            + concat_views(seq![colors::ACCENT, colors::BOLD,
            "└───────────────────────────────────────────────────────┘", colors::RESET]) + seq!['\n'] + seq!['\n'],
{
    let ghost s0 = con.serial@;
    proof {
        reveal_strlit("");
        lemma_concat_single("");
    }
    vprintln_impl(con, "");
    say(con, &[colors::ACCENT, colors::BOLD, "┌─ Boot Status ─────────────────────────────────────────┐", colors::RESET]);
    print_status_line(con, "Kernel", "Loaded", true);
    print_status_line(con, "Memory Manager", "Initialized", true);
    print_status_line(con, "Interrupt Controller", "Active", true);
    print_status_line(con, "Keyboard Driver", "Ready", true);
    print_status_line(con, "VGA Driver", "Active", true);
    print_status_line(con, "Scheduler", "Running", true);
    print_status_line(con, "Privacy Stack", "Loading", false);
    print_status_line(con, "Network Interface", "Detecting", false);
    say(con, &[colors::ACCENT, colors::BOLD, "└───────────────────────────────────────────────────────┘", colors::RESET]);
    vprintln_impl(con, "");
    assert(con.serial@ =~= s0 + seq!['\n'] + concat_views(seq![colors::ACCENT, colors::BOLD,
            "┌─ Boot Status ─────────────────────────────────────────┐", colors::RESET]) + seq!['\n']
            + status_line("Kernel"@, "Loaded"@, true) + seq!['\n']
            + status_line("Memory Manager"@, "Initialized"@, true) + seq!['\n']
            + status_line("Interrupt Controller"@, "Active"@, true) + seq!['\n']
            + status_line("Keyboard Driver"@, "Ready"@, true) + seq!['\n']
            + status_line("VGA Driver"@, "Active"@, true) + seq!['\n']
            + status_line("Scheduler"@, "Running"@, true) + seq!['\n']
            + status_line("Privacy Stack"@, "Loading"@, false) + seq!['\n']
            + status_line("Network Interface"@, "Detecting"@, false) + seq!['\n']
            + concat_views(seq![colors::ACCENT, colors::BOLD,
            "└───────────────────────────────────────────────────────┘", colors::RESET]) + seq!['\n'] + seq!['\n']);
}

} // verus!
