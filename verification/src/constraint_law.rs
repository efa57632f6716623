//! The constraints of the schema are the constraints that a failure is
//! recognized by.
use vstd::prelude::*;

use crate::schema::CONSTRAINT_NAMES;
use crate::sqlstate;
use crate::sqlstate::{
    ConstraintKind, SqlOperationPhase, CHECK_CONSTRAINTS, FOREIGN_KEY_CONSTRAINTS, NAME_PREFIX,
    UNIQUE_INVARIANT, UNIQUE_LEDGER, UNIQUE_SEMANTIC,
};

verus! {

/// The lists of recognized names, numbered.
spec fn group(number: int) -> Seq<&'static str> {
    if number == 0 {
        UNIQUE_LEDGER@
    } else if number == 1 {
        UNIQUE_SEMANTIC@
    } else if number == 2 {
        UNIQUE_INVARIANT@
    } else if number == 3 {
        FOREIGN_KEY_CONSTRAINTS@
    } else {
        CHECK_CONSTRAINTS@
    }
}

/// The kind of the constraints of a list.
spec fn group_kind(number: int) -> ConstraintKind {
    if number == 3 {
        ConstraintKind::ForeignKey
    } else if number == 4 {
        ConstraintKind::Check
    } else {
        ConstraintKind::Unique
    }
}

/// The kind that the last two characters of a name tell.
spec fn ending(name: Seq<char>) -> ConstraintKind {
    let last = (name[name.len() - 2], name[name.len() - 1]);
    if last == ('f', 'k') {
        ConstraintKind::ForeignKey
    } else if last == ('e', 'y') || last == ('u', 'e') {
        ConstraintKind::Unique
    } else {
        ConstraintKind::Check
    }
}

/// A listed name is, with the prefix, a name of the schema, and its ending tells
/// its kind.
spec fn stands_for(number: int, index: int, position: int) -> bool {
    &&& NAME_PREFIX@ + group(number)[index]@ == CONSTRAINT_NAMES@[position]@
    &&& ending(CONSTRAINT_NAMES@[position]@) == group_kind(number)
}

/// A listed name stands for one of the first names of the schema.
spec fn owned(number: int, index: int, count: int) -> bool {
    exists|position: int| 0 <= position < count && #[trigger] stands_for(number, index, position)
}

/// One of the first names of the lists stands for a name of the schema.
spec fn recognized(position: int, counts: Seq<int>) -> bool {
    exists|number: int, index: int|
        0 <= number < 5 && 0 <= index < counts[number] && #[trigger] stands_for(
            number,
            index,
            position,
        )
}

/// The first names of the schema and the first names of the lists are the same.
#[verifier::opaque]
spec fn covered(count: int, counts: Seq<int>) -> bool {
    &&& counts.len() == 5
    &&& forall|number: int, index: int|
        0 <= number < 5 && 0 <= index < counts[number] ==> #[trigger] owned(number, index, count)
    &&& forall|position: int| 0 <= position < count ==> #[trigger] recognized(position, counts)
}

proof fn lemma_next(count: int, counts: Seq<int>, number: int) -> (next: Seq<int>)
    requires
        covered(count, counts),
        0 <= number < 5,
        0 <= count,
        0 <= counts[number],
        stands_for(number, counts[number], count),
    ensures
        next == counts.update(number, counts[number] + 1),
        covered(count + 1, next),
{
    reveal(covered);
    let next = counts.update(number, counts[number] + 1);
    assert forall|n: int, index: int| 0 <= n < 5 && 0 <= index < next[n] implies #[trigger] owned(
        n,
        index,
        count + 1,
    ) by {
        if n == number && index == counts[number] {
            assert(stands_for(n, index, count));
        } else {
            assert(owned(n, index, count));
            let position = choose|position: int|
                0 <= position < count && #[trigger] stands_for(n, index, position);
            assert(stands_for(n, index, position));
        }
    }
    assert forall|position: int| 0 <= position < count + 1 implies #[trigger] recognized(
        position,
        next,
    ) by {
        if position == count {
            assert(stands_for(number, counts[number], position));
        } else {
            assert(recognized(position, counts));
            let (n, index) = choose|n: int, index: int|
                0 <= n < 5 && 0 <= index < counts[n] && #[trigger] stands_for(n, index, position);
            assert(stands_for(n, index, position));
        }
    }
    next
}

proof fn lemma_schema_migrations(counts: Seq<int>) -> (next: Seq<int>)
    requires
        counts =~= seq![0int, 0, 0, 0, 0],
        covered(0, counts),
    ensures
        next =~= seq![0int, 0, 1, 0, 2],
        covered(3, next),
{
    reveal_strlit("w9pt_fs_state_");
    assert(stands_for(2, 0, 0)) by {
        reveal_strlit("schema_migrations_pkey");
        reveal_strlit("w9pt_fs_state_schema_migrations_pkey");
        assert(NAME_PREFIX@ + group(2)[0]@ =~= CONSTRAINT_NAMES@[0]@);
    }
    let counts = lemma_next(0, counts, 2);
    assert(stands_for(4, 0, 1)) by {
        reveal_strlit("schema_migrations_version_positive");
        reveal_strlit("w9pt_fs_state_schema_migrations_version_positive");
        assert(NAME_PREFIX@ + group(4)[0]@ =~= CONSTRAINT_NAMES@[1]@);
    }
    let counts = lemma_next(1, counts, 4);
    assert(stands_for(4, 1, 2)) by {
        reveal_strlit("schema_migrations_checksum_width");
        reveal_strlit("w9pt_fs_state_schema_migrations_checksum_width");
        assert(NAME_PREFIX@ + group(4)[1]@ =~= CONSTRAINT_NAMES@[2]@);
    }
    let counts = lemma_next(2, counts, 4);
    counts
}

proof fn lemma_authority_heads(counts: Seq<int>) -> (next: Seq<int>)
    requires
        counts =~= seq![0int, 0, 1, 0, 2],
        covered(3, counts),
    ensures
        next =~= seq![0int, 1, 1, 0, 6],
        covered(8, next),
{
    reveal_strlit("w9pt_fs_state_");
    assert(stands_for(1, 0, 3)) by {
        reveal_strlit("authority_heads_pkey");
        reveal_strlit("w9pt_fs_state_authority_heads_pkey");
        assert(NAME_PREFIX@ + group(1)[0]@ =~= CONSTRAINT_NAMES@[3]@);
    }
    let counts = lemma_next(3, counts, 1);
    assert(stands_for(4, 2, 4)) by {
        reveal_strlit("authority_heads_filesystem_id_width");
        reveal_strlit("w9pt_fs_state_authority_heads_filesystem_id_width");
        assert(NAME_PREFIX@ + group(4)[2]@ =~= CONSTRAINT_NAMES@[4]@);
    }
    let counts = lemma_next(4, counts, 4);
    assert(stands_for(4, 3, 5)) by {
        reveal_strlit("authority_heads_current_revision_range");
        reveal_strlit("w9pt_fs_state_authority_heads_current_revision_range");
        assert(NAME_PREFIX@ + group(4)[3]@ =~= CONSTRAINT_NAMES@[5]@);
    }
    let counts = lemma_next(5, counts, 4);
    assert(stands_for(4, 4, 6)) by {
        reveal_strlit("authority_heads_oldest_revision_range");
        reveal_strlit("w9pt_fs_state_authority_heads_oldest_revision_range");
        assert(NAME_PREFIX@ + group(4)[4]@ =~= CONSTRAINT_NAMES@[6]@);
    }
    let counts = lemma_next(6, counts, 4);
    assert(stands_for(4, 5, 7)) by {
        reveal_strlit("authority_heads_retention_order");
        reveal_strlit("w9pt_fs_state_authority_heads_retention_order");
        assert(NAME_PREFIX@ + group(4)[5]@ =~= CONSTRAINT_NAMES@[7]@);
    }
    let counts = lemma_next(7, counts, 4);
    counts
}

proof fn lemma_filesystem_records(counts: Seq<int>) -> (next: Seq<int>)
    requires
        counts =~= seq![0int, 1, 1, 0, 6],
        covered(8, counts),
    ensures
        next =~= seq![0int, 2, 1, 1, 14],
        covered(18, next),
{
    reveal_strlit("w9pt_fs_state_");
    assert(stands_for(1, 1, 8)) by {
        reveal_strlit("filesystem_records_pkey");
        reveal_strlit("w9pt_fs_state_filesystem_records_pkey");
        assert(NAME_PREFIX@ + group(1)[1]@ =~= CONSTRAINT_NAMES@[8]@);
    }
    let counts = lemma_next(8, counts, 1);
    assert(stands_for(4, 6, 9)) by {
        reveal_strlit("filesystem_records_filesystem_id_width");
        reveal_strlit("w9pt_fs_state_filesystem_records_filesystem_id_width");
        assert(NAME_PREFIX@ + group(4)[6]@ =~= CONSTRAINT_NAMES@[9]@);
    }
    let counts = lemma_next(9, counts, 4);
    assert(stands_for(4, 7, 10)) by {
        reveal_strlit("filesystem_records_root_inode_id_width");
        reveal_strlit("w9pt_fs_state_filesystem_records_root_inode_id_width");
        assert(NAME_PREFIX@ + group(4)[7]@ =~= CONSTRAINT_NAMES@[10]@);
    }
    let counts = lemma_next(10, counts, 4);
    assert(stands_for(4, 8, 11)) by {
        reveal_strlit("filesystem_records_state_revision_range");
        reveal_strlit("w9pt_fs_state_filesystem_records_state_revision_range");
        assert(NAME_PREFIX@ + group(4)[8]@ =~= CONSTRAINT_NAMES@[11]@);
    }
    let counts = lemma_next(11, counts, 4);
    assert(stands_for(4, 9, 12)) by {
        reveal_strlit("filesystem_records_record_revision_range");
        reveal_strlit("w9pt_fs_state_filesystem_records_record_revision_range");
        assert(NAME_PREFIX@ + group(4)[9]@ =~= CONSTRAINT_NAMES@[12]@);
    }
    let counts = lemma_next(12, counts, 4);
    assert(stands_for(4, 10, 13)) by {
        reveal_strlit("filesystem_records_revision_match");
        reveal_strlit("w9pt_fs_state_filesystem_records_revision_match");
        assert(NAME_PREFIX@ + group(4)[10]@ =~= CONSTRAINT_NAMES@[13]@);
    }
    let counts = lemma_next(13, counts, 4);
    assert(stands_for(4, 11, 14)) by {
        reveal_strlit("filesystem_records_next_qid_path_range");
        reveal_strlit("w9pt_fs_state_filesystem_records_next_qid_path_range");
        assert(NAME_PREFIX@ + group(4)[11]@ =~= CONSTRAINT_NAMES@[14]@);
    }
    let counts = lemma_next(14, counts, 4);
    assert(stands_for(4, 12, 15)) by {
        reveal_strlit("filesystem_records_next_cookie_range");
        reveal_strlit("w9pt_fs_state_filesystem_records_next_cookie_range");
        assert(NAME_PREFIX@ + group(4)[12]@ =~= CONSTRAINT_NAMES@[15]@);
    }
    let counts = lemma_next(15, counts, 4);
    assert(stands_for(4, 13, 16)) by {
        reveal_strlit("filesystem_records_policy_generation_range");
        reveal_strlit("w9pt_fs_state_filesystem_records_policy_generation_range");
        assert(NAME_PREFIX@ + group(4)[13]@ =~= CONSTRAINT_NAMES@[16]@);
    }
    let counts = lemma_next(16, counts, 4);
    assert(stands_for(3, 0, 17)) by {
        reveal_strlit("filesystem_records_root_inode_fk");
        reveal_strlit("w9pt_fs_state_filesystem_records_root_inode_fk");
        assert(NAME_PREFIX@ + group(3)[0]@ =~= CONSTRAINT_NAMES@[17]@);
    }
    let counts = lemma_next(17, counts, 3);
    counts
}

proof fn lemma_inodes_first(counts: Seq<int>) -> (next: Seq<int>)
    requires
        counts =~= seq![0int, 2, 1, 1, 14],
        covered(18, counts),
    ensures
        next =~= seq![0int, 4, 1, 1, 26],
        covered(32, next),
{
    reveal_strlit("w9pt_fs_state_");
    assert(stands_for(1, 2, 18)) by {
        reveal_strlit("inodes_pkey");
        reveal_strlit("w9pt_fs_state_inodes_pkey");
        assert(NAME_PREFIX@ + group(1)[2]@ =~= CONSTRAINT_NAMES@[18]@);
    }
    let counts = lemma_next(18, counts, 1);
    assert(stands_for(1, 3, 19)) by {
        reveal_strlit("inodes_qid_path_unique");
        reveal_strlit("w9pt_fs_state_inodes_qid_path_unique");
        assert(NAME_PREFIX@ + group(1)[3]@ =~= CONSTRAINT_NAMES@[19]@);
    }
    let counts = lemma_next(19, counts, 1);
    assert(stands_for(4, 14, 20)) by {
        reveal_strlit("inodes_filesystem_id_width");
        reveal_strlit("w9pt_fs_state_inodes_filesystem_id_width");
        assert(NAME_PREFIX@ + group(4)[14]@ =~= CONSTRAINT_NAMES@[20]@);
    }
    let counts = lemma_next(20, counts, 4);
    assert(stands_for(4, 15, 21)) by {
        reveal_strlit("inodes_inode_id_width");
        reveal_strlit("w9pt_fs_state_inodes_inode_id_width");
        assert(NAME_PREFIX@ + group(4)[15]@ =~= CONSTRAINT_NAMES@[21]@);
    }
    let counts = lemma_next(21, counts, 4);
    assert(stands_for(4, 16, 22)) by {
        reveal_strlit("inodes_qid_path_range");
        reveal_strlit("w9pt_fs_state_inodes_qid_path_range");
        assert(NAME_PREFIX@ + group(4)[16]@ =~= CONSTRAINT_NAMES@[22]@);
    }
    let counts = lemma_next(22, counts, 4);
    assert(stands_for(4, 17, 23)) by {
        reveal_strlit("inodes_record_revision_range");
        reveal_strlit("w9pt_fs_state_inodes_record_revision_range");
        assert(NAME_PREFIX@ + group(4)[17]@ =~= CONSTRAINT_NAMES@[23]@);
    }
    let counts = lemma_next(23, counts, 4);
    assert(stands_for(4, 18, 24)) by {
        reveal_strlit("inodes_mode_range");
        reveal_strlit("w9pt_fs_state_inodes_mode_range");
        assert(NAME_PREFIX@ + group(4)[18]@ =~= CONSTRAINT_NAMES@[24]@);
    }
    let counts = lemma_next(24, counts, 4);
    assert(stands_for(4, 19, 25)) by {
        reveal_strlit("inodes_owner_bounds");
        reveal_strlit("w9pt_fs_state_inodes_owner_bounds");
        assert(NAME_PREFIX@ + group(4)[19]@ =~= CONSTRAINT_NAMES@[25]@);
    }
    let counts = lemma_next(25, counts, 4);
    assert(stands_for(4, 20, 26)) by {
        reveal_strlit("inodes_group_bounds");
        reveal_strlit("w9pt_fs_state_inodes_group_bounds");
        assert(NAME_PREFIX@ + group(4)[20]@ =~= CONSTRAINT_NAMES@[26]@);
    }
    let counts = lemma_next(26, counts, 4);
    assert(stands_for(4, 21, 27)) by {
        reveal_strlit("inodes_timestamp_nanoseconds_range");
        reveal_strlit("w9pt_fs_state_inodes_timestamp_nanoseconds_range");
        assert(NAME_PREFIX@ + group(4)[21]@ =~= CONSTRAINT_NAMES@[27]@);
    }
    let counts = lemma_next(27, counts, 4);
    assert(stands_for(4, 22, 28)) by {
        reveal_strlit("inodes_logical_size_range");
        reveal_strlit("w9pt_fs_state_inodes_logical_size_range");
        assert(NAME_PREFIX@ + group(4)[22]@ =~= CONSTRAINT_NAMES@[28]@);
    }
    let counts = lemma_next(28, counts, 4);
    assert(stands_for(4, 23, 29)) by {
        reveal_strlit("inodes_link_count_range");
        reveal_strlit("w9pt_fs_state_inodes_link_count_range");
        assert(NAME_PREFIX@ + group(4)[23]@ =~= CONSTRAINT_NAMES@[29]@);
    }
    let counts = lemma_next(29, counts, 4);
    assert(stands_for(4, 24, 30)) by {
        reveal_strlit("inodes_generation_range");
        reveal_strlit("w9pt_fs_state_inodes_generation_range");
        assert(NAME_PREFIX@ + group(4)[24]@ =~= CONSTRAINT_NAMES@[30]@);
    }
    let counts = lemma_next(30, counts, 4);
    assert(stands_for(4, 25, 31)) by {
        reveal_strlit("inodes_kind_tag");
        reveal_strlit("w9pt_fs_state_inodes_kind_tag");
        assert(NAME_PREFIX@ + group(4)[25]@ =~= CONSTRAINT_NAMES@[31]@);
    }
    let counts = lemma_next(31, counts, 4);
    counts
}

proof fn lemma_inodes_second(counts: Seq<int>) -> (next: Seq<int>)
    requires
        counts =~= seq![0int, 4, 1, 1, 26],
        covered(32, counts),
    ensures
        next =~= seq![0int, 4, 1, 2, 39],
        covered(46, next),
{
    reveal_strlit("w9pt_fs_state_");
    assert(stands_for(4, 26, 32)) by {
        reveal_strlit("inodes_owner_no_nul");
        reveal_strlit("w9pt_fs_state_inodes_owner_no_nul");
        assert(NAME_PREFIX@ + group(4)[26]@ =~= CONSTRAINT_NAMES@[32]@);
    }
    let counts = lemma_next(32, counts, 4);
    assert(stands_for(4, 27, 33)) by {
        reveal_strlit("inodes_group_no_nul");
        reveal_strlit("w9pt_fs_state_inodes_group_no_nul");
        assert(NAME_PREFIX@ + group(4)[27]@ =~= CONSTRAINT_NAMES@[33]@);
    }
    let counts = lemma_next(33, counts, 4);
    assert(stands_for(4, 28, 34)) by {
        reveal_strlit("inodes_content_file_id_width");
        reveal_strlit("w9pt_fs_state_inodes_content_file_id_width");
        assert(NAME_PREFIX@ + group(4)[28]@ =~= CONSTRAINT_NAMES@[34]@);
    }
    let counts = lemma_next(34, counts, 4);
    assert(stands_for(4, 29, 35)) by {
        reveal_strlit("inodes_data_generation_range");
        reveal_strlit("w9pt_fs_state_inodes_data_generation_range");
        assert(NAME_PREFIX@ + group(4)[29]@ =~= CONSTRAINT_NAMES@[35]@);
    }
    let counts = lemma_next(35, counts, 4);
    assert(stands_for(4, 30, 36)) by {
        reveal_strlit("inodes_content_generation_range");
        reveal_strlit("w9pt_fs_state_inodes_content_generation_range");
        assert(NAME_PREFIX@ + group(4)[30]@ =~= CONSTRAINT_NAMES@[36]@);
    }
    let counts = lemma_next(36, counts, 4);
    assert(stands_for(4, 31, 37)) by {
        reveal_strlit("inodes_content_logical_size_range");
        reveal_strlit("w9pt_fs_state_inodes_content_logical_size_range");
        assert(NAME_PREFIX@ + group(4)[31]@ =~= CONSTRAINT_NAMES@[37]@);
    }
    let counts = lemma_next(37, counts, 4);
    assert(stands_for(4, 32, 38)) by {
        reveal_strlit("inodes_content_manifest_key_bounds");
        reveal_strlit("w9pt_fs_state_inodes_content_manifest_key_bounds");
        assert(NAME_PREFIX@ + group(4)[32]@ =~= CONSTRAINT_NAMES@[38]@);
    }
    let counts = lemma_next(38, counts, 4);
    assert(stands_for(4, 33, 39)) by {
        reveal_strlit("inodes_content_manifest_digest_width");
        reveal_strlit("w9pt_fs_state_inodes_content_manifest_digest_width");
        assert(NAME_PREFIX@ + group(4)[33]@ =~= CONSTRAINT_NAMES@[39]@);
    }
    let counts = lemma_next(39, counts, 4);
    assert(stands_for(4, 34, 40)) by {
        reveal_strlit("inodes_content_storage_method_tag");
        reveal_strlit("w9pt_fs_state_inodes_content_storage_method_tag");
        assert(NAME_PREFIX@ + group(4)[34]@ =~= CONSTRAINT_NAMES@[40]@);
    }
    let counts = lemma_next(40, counts, 4);
    assert(stands_for(4, 35, 41)) by {
        reveal_strlit("inodes_directory_generation_range");
        reveal_strlit("w9pt_fs_state_inodes_directory_generation_range");
        assert(NAME_PREFIX@ + group(4)[35]@ =~= CONSTRAINT_NAMES@[41]@);
    }
    let counts = lemma_next(41, counts, 4);
    assert(stands_for(4, 36, 42)) by {
        reveal_strlit("inodes_directory_parent_id_width");
        reveal_strlit("w9pt_fs_state_inodes_directory_parent_id_width");
        assert(NAME_PREFIX@ + group(4)[36]@ =~= CONSTRAINT_NAMES@[42]@);
    }
    let counts = lemma_next(42, counts, 4);
    assert(stands_for(4, 37, 43)) by {
        reveal_strlit("inodes_directory_parent_shape");
        reveal_strlit("w9pt_fs_state_inodes_directory_parent_shape");
        assert(NAME_PREFIX@ + group(4)[37]@ =~= CONSTRAINT_NAMES@[43]@);
    }
    let counts = lemma_next(43, counts, 4);
    assert(stands_for(3, 1, 44)) by {
        reveal_strlit("inodes_directory_parent_fk");
        reveal_strlit("w9pt_fs_state_inodes_directory_parent_fk");
        assert(NAME_PREFIX@ + group(3)[1]@ =~= CONSTRAINT_NAMES@[44]@);
    }
    let counts = lemma_next(44, counts, 3);
    assert(stands_for(4, 38, 45)) by {
        reveal_strlit("inodes_symlink_target_bounds");
        reveal_strlit("w9pt_fs_state_inodes_symlink_target_bounds");
        assert(NAME_PREFIX@ + group(4)[38]@ =~= CONSTRAINT_NAMES@[45]@);
    }
    let counts = lemma_next(45, counts, 4);
    counts
}

proof fn lemma_inodes_third(counts: Seq<int>) -> (next: Seq<int>)
    requires
        counts =~= seq![0int, 4, 1, 2, 39],
        covered(46, counts),
    ensures
        next =~= seq![0int, 4, 1, 2, 43],
        covered(50, next),
{
    reveal_strlit("w9pt_fs_state_");
    assert(stands_for(4, 39, 46)) by {
        reveal_strlit("inodes_device_number_range");
        reveal_strlit("w9pt_fs_state_inodes_device_number_range");
        assert(NAME_PREFIX@ + group(4)[39]@ =~= CONSTRAINT_NAMES@[46]@);
    }
    let counts = lemma_next(46, counts, 4);
    assert(stands_for(4, 40, 47)) by {
        reveal_strlit("inodes_content_fields_all_or_none");
        reveal_strlit("w9pt_fs_state_inodes_content_fields_all_or_none");
        assert(NAME_PREFIX@ + group(4)[40]@ =~= CONSTRAINT_NAMES@[47]@);
    }
    let counts = lemma_next(47, counts, 4);
    assert(stands_for(4, 41, 48)) by {
        reveal_strlit("inodes_regular_content_consistency");
        reveal_strlit("w9pt_fs_state_inodes_regular_content_consistency");
        assert(NAME_PREFIX@ + group(4)[41]@ =~= CONSTRAINT_NAMES@[48]@);
    }
    let counts = lemma_next(48, counts, 4);
    assert(stands_for(4, 42, 49)) by {
        reveal_strlit("inodes_kind_specific_shape");
        reveal_strlit("w9pt_fs_state_inodes_kind_specific_shape");
        assert(NAME_PREFIX@ + group(4)[42]@ =~= CONSTRAINT_NAMES@[49]@);
    }
    let counts = lemma_next(49, counts, 4);
    counts
}

proof fn lemma_directory_entries(counts: Seq<int>) -> (next: Seq<int>)
    requires
        counts =~= seq![0int, 4, 1, 2, 43],
        covered(50, counts),
    ensures
        next =~= seq![0int, 6, 1, 4, 50],
        covered(61, next),
{
    reveal_strlit("w9pt_fs_state_");
    assert(stands_for(1, 4, 50)) by {
        reveal_strlit("directory_entries_pkey");
        reveal_strlit("w9pt_fs_state_directory_entries_pkey");
        assert(NAME_PREFIX@ + group(1)[4]@ =~= CONSTRAINT_NAMES@[50]@);
    }
    let counts = lemma_next(50, counts, 1);
    assert(stands_for(1, 5, 51)) by {
        reveal_strlit("directory_entries_cookie_unique");
        reveal_strlit("w9pt_fs_state_directory_entries_cookie_unique");
        assert(NAME_PREFIX@ + group(1)[5]@ =~= CONSTRAINT_NAMES@[51]@);
    }
    let counts = lemma_next(51, counts, 1);
    assert(stands_for(3, 2, 52)) by {
        reveal_strlit("directory_entries_parent_fk");
        reveal_strlit("w9pt_fs_state_directory_entries_parent_fk");
        assert(NAME_PREFIX@ + group(3)[2]@ =~= CONSTRAINT_NAMES@[52]@);
    }
    let counts = lemma_next(52, counts, 3);
    assert(stands_for(3, 3, 53)) by {
        reveal_strlit("directory_entries_child_fk");
        reveal_strlit("w9pt_fs_state_directory_entries_child_fk");
        assert(NAME_PREFIX@ + group(3)[3]@ =~= CONSTRAINT_NAMES@[53]@);
    }
    let counts = lemma_next(53, counts, 3);
    assert(stands_for(4, 43, 54)) by {
        reveal_strlit("directory_entries_filesystem_id_width");
        reveal_strlit("w9pt_fs_state_directory_entries_filesystem_id_width");
        assert(NAME_PREFIX@ + group(4)[43]@ =~= CONSTRAINT_NAMES@[54]@);
    }
    let counts = lemma_next(54, counts, 4);
    assert(stands_for(4, 44, 55)) by {
        reveal_strlit("directory_entries_parent_id_width");
        reveal_strlit("w9pt_fs_state_directory_entries_parent_id_width");
        assert(NAME_PREFIX@ + group(4)[44]@ =~= CONSTRAINT_NAMES@[55]@);
    }
    let counts = lemma_next(55, counts, 4);
    assert(stands_for(4, 45, 56)) by {
        reveal_strlit("directory_entries_child_id_width");
        reveal_strlit("w9pt_fs_state_directory_entries_child_id_width");
        assert(NAME_PREFIX@ + group(4)[45]@ =~= CONSTRAINT_NAMES@[56]@);
    }
    let counts = lemma_next(56, counts, 4);
    assert(stands_for(4, 46, 57)) by {
        reveal_strlit("directory_entries_name_bounds");
        reveal_strlit("w9pt_fs_state_directory_entries_name_bounds");
        assert(NAME_PREFIX@ + group(4)[46]@ =~= CONSTRAINT_NAMES@[57]@);
    }
    let counts = lemma_next(57, counts, 4);
    assert(stands_for(4, 47, 58)) by {
        reveal_strlit("directory_entries_name_forbidden");
        reveal_strlit("w9pt_fs_state_directory_entries_name_forbidden");
        assert(NAME_PREFIX@ + group(4)[47]@ =~= CONSTRAINT_NAMES@[58]@);
    }
    let counts = lemma_next(58, counts, 4);
    assert(stands_for(4, 48, 59)) by {
        reveal_strlit("directory_entries_cookie_range");
        reveal_strlit("w9pt_fs_state_directory_entries_cookie_range");
        assert(NAME_PREFIX@ + group(4)[48]@ =~= CONSTRAINT_NAMES@[59]@);
    }
    let counts = lemma_next(59, counts, 4);
    assert(stands_for(4, 49, 60)) by {
        reveal_strlit("directory_entries_record_revision_range");
        reveal_strlit("w9pt_fs_state_directory_entries_record_revision_range");
        assert(NAME_PREFIX@ + group(4)[49]@ =~= CONSTRAINT_NAMES@[60]@);
    }
    let counts = lemma_next(60, counts, 4);
    counts
}

proof fn lemma_opens(counts: Seq<int>) -> (next: Seq<int>)
    requires
        counts =~= seq![0int, 6, 1, 4, 50],
        covered(61, counts),
    ensures
        next =~= seq![0int, 8, 1, 5, 57],
        covered(71, next),
{
    reveal_strlit("w9pt_fs_state_");
    assert(stands_for(1, 6, 61)) by {
        reveal_strlit("opens_pkey");
        reveal_strlit("w9pt_fs_state_opens_pkey");
        assert(NAME_PREFIX@ + group(1)[6]@ =~= CONSTRAINT_NAMES@[61]@);
    }
    let counts = lemma_next(61, counts, 1);
    assert(stands_for(1, 7, 62)) by {
        reveal_strlit("opens_inode_identity_unique");
        reveal_strlit("w9pt_fs_state_opens_inode_identity_unique");
        assert(NAME_PREFIX@ + group(1)[7]@ =~= CONSTRAINT_NAMES@[62]@);
    }
    let counts = lemma_next(62, counts, 1);
    assert(stands_for(3, 4, 63)) by {
        reveal_strlit("opens_inode_fk");
        reveal_strlit("w9pt_fs_state_opens_inode_fk");
        assert(NAME_PREFIX@ + group(3)[4]@ =~= CONSTRAINT_NAMES@[63]@);
    }
    let counts = lemma_next(63, counts, 3);
    assert(stands_for(4, 50, 64)) by {
        reveal_strlit("opens_filesystem_id_width");
        reveal_strlit("w9pt_fs_state_opens_filesystem_id_width");
        assert(NAME_PREFIX@ + group(4)[50]@ =~= CONSTRAINT_NAMES@[64]@);
    }
    let counts = lemma_next(64, counts, 4);
    assert(stands_for(4, 51, 65)) by {
        reveal_strlit("opens_open_id_width");
        reveal_strlit("w9pt_fs_state_opens_open_id_width");
        assert(NAME_PREFIX@ + group(4)[51]@ =~= CONSTRAINT_NAMES@[65]@);
    }
    let counts = lemma_next(65, counts, 4);
    assert(stands_for(4, 52, 66)) by {
        reveal_strlit("opens_inode_id_width");
        reveal_strlit("w9pt_fs_state_opens_inode_id_width");
        assert(NAME_PREFIX@ + group(4)[52]@ =~= CONSTRAINT_NAMES@[66]@);
    }
    let counts = lemma_next(66, counts, 4);
    assert(stands_for(4, 53, 67)) by {
        reveal_strlit("opens_client_incarnation_width");
        reveal_strlit("w9pt_fs_state_opens_client_incarnation_width");
        assert(NAME_PREFIX@ + group(4)[53]@ =~= CONSTRAINT_NAMES@[67]@);
    }
    let counts = lemma_next(67, counts, 4);
    assert(stands_for(4, 54, 68)) by {
        reveal_strlit("opens_access_tag");
        reveal_strlit("w9pt_fs_state_opens_access_tag");
        assert(NAME_PREFIX@ + group(4)[54]@ =~= CONSTRAINT_NAMES@[68]@);
    }
    let counts = lemma_next(68, counts, 4);
    assert(stands_for(4, 55, 69)) by {
        reveal_strlit("opens_inode_generation_range");
        reveal_strlit("w9pt_fs_state_opens_inode_generation_range");
        assert(NAME_PREFIX@ + group(4)[55]@ =~= CONSTRAINT_NAMES@[69]@);
    }
    let counts = lemma_next(69, counts, 4);
    assert(stands_for(4, 56, 70)) by {
        reveal_strlit("opens_record_revision_range");
        reveal_strlit("w9pt_fs_state_opens_record_revision_range");
        assert(NAME_PREFIX@ + group(4)[56]@ =~= CONSTRAINT_NAMES@[70]@);
    }
    let counts = lemma_next(70, counts, 4);
    counts
}

proof fn lemma_open_pins(counts: Seq<int>) -> (next: Seq<int>)
    requires
        counts =~= seq![0int, 8, 1, 5, 57],
        covered(71, counts),
    ensures
        next =~= seq![0int, 9, 1, 7, 61],
        covered(78, next),
{
    reveal_strlit("w9pt_fs_state_");
    assert(stands_for(1, 8, 71)) by {
        reveal_strlit("open_pins_pkey");
        reveal_strlit("w9pt_fs_state_open_pins_pkey");
        assert(NAME_PREFIX@ + group(1)[8]@ =~= CONSTRAINT_NAMES@[71]@);
    }
    let counts = lemma_next(71, counts, 1);
    assert(stands_for(3, 5, 72)) by {
        reveal_strlit("open_pins_inode_fk");
        reveal_strlit("w9pt_fs_state_open_pins_inode_fk");
        assert(NAME_PREFIX@ + group(3)[5]@ =~= CONSTRAINT_NAMES@[72]@);
    }
    let counts = lemma_next(72, counts, 3);
    assert(stands_for(3, 6, 73)) by {
        reveal_strlit("open_pins_open_inode_fk");
        reveal_strlit("w9pt_fs_state_open_pins_open_inode_fk");
        assert(NAME_PREFIX@ + group(3)[6]@ =~= CONSTRAINT_NAMES@[73]@);
    }
    let counts = lemma_next(73, counts, 3);
    assert(stands_for(4, 57, 74)) by {
        reveal_strlit("open_pins_filesystem_id_width");
        reveal_strlit("w9pt_fs_state_open_pins_filesystem_id_width");
        assert(NAME_PREFIX@ + group(4)[57]@ =~= CONSTRAINT_NAMES@[74]@);
    }
    let counts = lemma_next(74, counts, 4);
    assert(stands_for(4, 58, 75)) by {
        reveal_strlit("open_pins_inode_id_width");
        reveal_strlit("w9pt_fs_state_open_pins_inode_id_width");
        assert(NAME_PREFIX@ + group(4)[58]@ =~= CONSTRAINT_NAMES@[75]@);
    }
    let counts = lemma_next(75, counts, 4);
    assert(stands_for(4, 59, 76)) by {
        reveal_strlit("open_pins_open_id_width");
        reveal_strlit("w9pt_fs_state_open_pins_open_id_width");
        assert(NAME_PREFIX@ + group(4)[59]@ =~= CONSTRAINT_NAMES@[76]@);
    }
    let counts = lemma_next(76, counts, 4);
    assert(stands_for(4, 60, 77)) by {
        reveal_strlit("open_pins_record_revision_range");
        reveal_strlit("w9pt_fs_state_open_pins_record_revision_range");
        assert(NAME_PREFIX@ + group(4)[60]@ =~= CONSTRAINT_NAMES@[77]@);
    }
    let counts = lemma_next(77, counts, 4);
    counts
}

proof fn lemma_orphans(counts: Seq<int>) -> (next: Seq<int>)
    requires
        counts =~= seq![0int, 9, 1, 7, 61],
        covered(78, counts),
    ensures
        next =~= seq![0int, 10, 1, 8, 66],
        covered(85, next),
{
    reveal_strlit("w9pt_fs_state_");
    assert(stands_for(1, 9, 78)) by {
        reveal_strlit("orphans_pkey");
        reveal_strlit("w9pt_fs_state_orphans_pkey");
        assert(NAME_PREFIX@ + group(1)[9]@ =~= CONSTRAINT_NAMES@[78]@);
    }
    let counts = lemma_next(78, counts, 1);
    assert(stands_for(3, 7, 79)) by {
        reveal_strlit("orphans_inode_fk");
        reveal_strlit("w9pt_fs_state_orphans_inode_fk");
        assert(NAME_PREFIX@ + group(3)[7]@ =~= CONSTRAINT_NAMES@[79]@);
    }
    let counts = lemma_next(79, counts, 3);
    assert(stands_for(4, 61, 80)) by {
        reveal_strlit("orphans_filesystem_id_width");
        reveal_strlit("w9pt_fs_state_orphans_filesystem_id_width");
        assert(NAME_PREFIX@ + group(4)[61]@ =~= CONSTRAINT_NAMES@[80]@);
    }
    let counts = lemma_next(80, counts, 4);
    assert(stands_for(4, 62, 81)) by {
        reveal_strlit("orphans_inode_id_width");
        reveal_strlit("w9pt_fs_state_orphans_inode_id_width");
        assert(NAME_PREFIX@ + group(4)[62]@ =~= CONSTRAINT_NAMES@[81]@);
    }
    let counts = lemma_next(81, counts, 4);
    assert(stands_for(4, 63, 82)) by {
        reveal_strlit("orphans_open_pin_count_range");
        reveal_strlit("w9pt_fs_state_orphans_open_pin_count_range");
        assert(NAME_PREFIX@ + group(4)[63]@ =~= CONSTRAINT_NAMES@[82]@);
    }
    let counts = lemma_next(82, counts, 4);
    assert(stands_for(4, 64, 83)) by {
        reveal_strlit("orphans_orphaned_revision_range");
        reveal_strlit("w9pt_fs_state_orphans_orphaned_revision_range");
        assert(NAME_PREFIX@ + group(4)[64]@ =~= CONSTRAINT_NAMES@[83]@);
    }
    let counts = lemma_next(83, counts, 4);
    assert(stands_for(4, 65, 84)) by {
        reveal_strlit("orphans_record_revision_range");
        reveal_strlit("w9pt_fs_state_orphans_record_revision_range");
        assert(NAME_PREFIX@ + group(4)[65]@ =~= CONSTRAINT_NAMES@[84]@);
    }
    let counts = lemma_next(84, counts, 4);
    counts
}

proof fn lemma_locks(counts: Seq<int>) -> (next: Seq<int>)
    requires
        counts =~= seq![0int, 10, 1, 8, 66],
        covered(85, counts),
    ensures
        next =~= seq![0int, 11, 1, 10, 77],
        covered(99, next),
{
    reveal_strlit("w9pt_fs_state_");
    assert(stands_for(1, 10, 85)) by {
        reveal_strlit("locks_pkey");
        reveal_strlit("w9pt_fs_state_locks_pkey");
        assert(NAME_PREFIX@ + group(1)[10]@ =~= CONSTRAINT_NAMES@[85]@);
    }
    let counts = lemma_next(85, counts, 1);
    assert(stands_for(3, 8, 86)) by {
        reveal_strlit("locks_inode_fk");
        reveal_strlit("w9pt_fs_state_locks_inode_fk");
        assert(NAME_PREFIX@ + group(3)[8]@ =~= CONSTRAINT_NAMES@[86]@);
    }
    let counts = lemma_next(86, counts, 3);
    assert(stands_for(3, 9, 87)) by {
        reveal_strlit("locks_owner_open_fk");
        reveal_strlit("w9pt_fs_state_locks_owner_open_fk");
        assert(NAME_PREFIX@ + group(3)[9]@ =~= CONSTRAINT_NAMES@[87]@);
    }
    let counts = lemma_next(87, counts, 3);
    assert(stands_for(4, 66, 88)) by {
        reveal_strlit("locks_filesystem_id_width");
        reveal_strlit("w9pt_fs_state_locks_filesystem_id_width");
        assert(NAME_PREFIX@ + group(4)[66]@ =~= CONSTRAINT_NAMES@[88]@);
    }
    let counts = lemma_next(88, counts, 4);
    assert(stands_for(4, 67, 89)) by {
        reveal_strlit("locks_inode_id_width");
        reveal_strlit("w9pt_fs_state_locks_inode_id_width");
        assert(NAME_PREFIX@ + group(4)[67]@ =~= CONSTRAINT_NAMES@[89]@);
    }
    let counts = lemma_next(89, counts, 4);
    assert(stands_for(4, 68, 90)) by {
        reveal_strlit("locks_lock_id_width");
        reveal_strlit("w9pt_fs_state_locks_lock_id_width");
        assert(NAME_PREFIX@ + group(4)[68]@ =~= CONSTRAINT_NAMES@[90]@);
    }
    let counts = lemma_next(90, counts, 4);
    assert(stands_for(4, 69, 91)) by {
        reveal_strlit("locks_owner_client_width");
        reveal_strlit("w9pt_fs_state_locks_owner_client_width");
        assert(NAME_PREFIX@ + group(4)[69]@ =~= CONSTRAINT_NAMES@[91]@);
    }
    let counts = lemma_next(91, counts, 4);
    assert(stands_for(4, 70, 92)) by {
        reveal_strlit("locks_owner_open_width");
        reveal_strlit("w9pt_fs_state_locks_owner_open_width");
        assert(NAME_PREFIX@ + group(4)[70]@ =~= CONSTRAINT_NAMES@[92]@);
    }
    let counts = lemma_next(92, counts, 4);
    assert(stands_for(4, 71, 93)) by {
        reveal_strlit("locks_range_start_range");
        reveal_strlit("w9pt_fs_state_locks_range_start_range");
        assert(NAME_PREFIX@ + group(4)[71]@ =~= CONSTRAINT_NAMES@[93]@);
    }
    let counts = lemma_next(93, counts, 4);
    assert(stands_for(4, 72, 94)) by {
        reveal_strlit("locks_range_end_range");
        reveal_strlit("w9pt_fs_state_locks_range_end_range");
        assert(NAME_PREFIX@ + group(4)[72]@ =~= CONSTRAINT_NAMES@[94]@);
    }
    let counts = lemma_next(94, counts, 4);
    assert(stands_for(4, 73, 95)) by {
        reveal_strlit("locks_range_nonempty");
        reveal_strlit("w9pt_fs_state_locks_range_nonempty");
        assert(NAME_PREFIX@ + group(4)[73]@ =~= CONSTRAINT_NAMES@[95]@);
    }
    let counts = lemma_next(95, counts, 4);
    assert(stands_for(4, 74, 96)) by {
        reveal_strlit("locks_kind_tag");
        reveal_strlit("w9pt_fs_state_locks_kind_tag");
        assert(NAME_PREFIX@ + group(4)[74]@ =~= CONSTRAINT_NAMES@[96]@);
    }
    let counts = lemma_next(96, counts, 4);
    assert(stands_for(4, 75, 97)) by {
        reveal_strlit("locks_generation_range");
        reveal_strlit("w9pt_fs_state_locks_generation_range");
        assert(NAME_PREFIX@ + group(4)[75]@ =~= CONSTRAINT_NAMES@[97]@);
    }
    let counts = lemma_next(97, counts, 4);
    assert(stands_for(4, 76, 98)) by {
        reveal_strlit("locks_record_revision_range");
        reveal_strlit("w9pt_fs_state_locks_record_revision_range");
        assert(NAME_PREFIX@ + group(4)[76]@ =~= CONSTRAINT_NAMES@[98]@);
    }
    let counts = lemma_next(98, counts, 4);
    counts
}

proof fn lemma_xattrs(counts: Seq<int>) -> (next: Seq<int>)
    requires
        counts =~= seq![0int, 11, 1, 10, 77],
        covered(99, counts),
    ensures
        next =~= seq![0int, 12, 1, 11, 83],
        covered(107, next),
{
    reveal_strlit("w9pt_fs_state_");
    assert(stands_for(1, 11, 99)) by {
        reveal_strlit("xattrs_pkey");
        reveal_strlit("w9pt_fs_state_xattrs_pkey");
        assert(NAME_PREFIX@ + group(1)[11]@ =~= CONSTRAINT_NAMES@[99]@);
    }
    let counts = lemma_next(99, counts, 1);
    assert(stands_for(3, 10, 100)) by {
        reveal_strlit("xattrs_inode_fk");
        reveal_strlit("w9pt_fs_state_xattrs_inode_fk");
        assert(NAME_PREFIX@ + group(3)[10]@ =~= CONSTRAINT_NAMES@[100]@);
    }
    let counts = lemma_next(100, counts, 3);
    assert(stands_for(4, 77, 101)) by {
        reveal_strlit("xattrs_filesystem_id_width");
        reveal_strlit("w9pt_fs_state_xattrs_filesystem_id_width");
        assert(NAME_PREFIX@ + group(4)[77]@ =~= CONSTRAINT_NAMES@[101]@);
    }
    let counts = lemma_next(101, counts, 4);
    assert(stands_for(4, 78, 102)) by {
        reveal_strlit("xattrs_inode_id_width");
        reveal_strlit("w9pt_fs_state_xattrs_inode_id_width");
        assert(NAME_PREFIX@ + group(4)[78]@ =~= CONSTRAINT_NAMES@[102]@);
    }
    let counts = lemma_next(102, counts, 4);
    assert(stands_for(4, 79, 103)) by {
        reveal_strlit("xattrs_name_bounds");
        reveal_strlit("w9pt_fs_state_xattrs_name_bounds");
        assert(NAME_PREFIX@ + group(4)[79]@ =~= CONSTRAINT_NAMES@[103]@);
    }
    let counts = lemma_next(103, counts, 4);
    assert(stands_for(4, 80, 104)) by {
        reveal_strlit("xattrs_name_no_nul");
        reveal_strlit("w9pt_fs_state_xattrs_name_no_nul");
        assert(NAME_PREFIX@ + group(4)[80]@ =~= CONSTRAINT_NAMES@[104]@);
    }
    let counts = lemma_next(104, counts, 4);
    assert(stands_for(4, 81, 105)) by {
        reveal_strlit("xattrs_value_bound");
        reveal_strlit("w9pt_fs_state_xattrs_value_bound");
        assert(NAME_PREFIX@ + group(4)[81]@ =~= CONSTRAINT_NAMES@[105]@);
    }
    let counts = lemma_next(105, counts, 4);
    assert(stands_for(4, 82, 106)) by {
        reveal_strlit("xattrs_record_revision_range");
        reveal_strlit("w9pt_fs_state_xattrs_record_revision_range");
        assert(NAME_PREFIX@ + group(4)[82]@ =~= CONSTRAINT_NAMES@[106]@);
    }
    let counts = lemma_next(106, counts, 4);
    counts
}

proof fn lemma_xattr_staging(counts: Seq<int>) -> (next: Seq<int>)
    requires
        counts =~= seq![0int, 12, 1, 11, 83],
        covered(107, counts),
    ensures
        next =~= seq![0int, 13, 1, 12, 92],
        covered(118, next),
{
    reveal_strlit("w9pt_fs_state_");
    assert(stands_for(1, 12, 107)) by {
        reveal_strlit("xattr_staging_pkey");
        reveal_strlit("w9pt_fs_state_xattr_staging_pkey");
        assert(NAME_PREFIX@ + group(1)[12]@ =~= CONSTRAINT_NAMES@[107]@);
    }
    let counts = lemma_next(107, counts, 1);
    assert(stands_for(3, 11, 108)) by {
        reveal_strlit("xattr_staging_inode_fk");
        reveal_strlit("w9pt_fs_state_xattr_staging_inode_fk");
        assert(NAME_PREFIX@ + group(3)[11]@ =~= CONSTRAINT_NAMES@[108]@);
    }
    let counts = lemma_next(108, counts, 3);
    assert(stands_for(4, 83, 109)) by {
        reveal_strlit("xattr_staging_filesystem_id_width");
        reveal_strlit("w9pt_fs_state_xattr_staging_filesystem_id_width");
        assert(NAME_PREFIX@ + group(4)[83]@ =~= CONSTRAINT_NAMES@[109]@);
    }
    let counts = lemma_next(109, counts, 4);
    assert(stands_for(4, 84, 110)) by {
        reveal_strlit("xattr_staging_staging_id_width");
        reveal_strlit("w9pt_fs_state_xattr_staging_staging_id_width");
        assert(NAME_PREFIX@ + group(4)[84]@ =~= CONSTRAINT_NAMES@[110]@);
    }
    let counts = lemma_next(110, counts, 4);
    assert(stands_for(4, 85, 111)) by {
        reveal_strlit("xattr_staging_inode_id_width");
        reveal_strlit("w9pt_fs_state_xattr_staging_inode_id_width");
        assert(NAME_PREFIX@ + group(4)[85]@ =~= CONSTRAINT_NAMES@[111]@);
    }
    let counts = lemma_next(111, counts, 4);
    assert(stands_for(4, 86, 112)) by {
        reveal_strlit("xattr_staging_name_bounds");
        reveal_strlit("w9pt_fs_state_xattr_staging_name_bounds");
        assert(NAME_PREFIX@ + group(4)[86]@ =~= CONSTRAINT_NAMES@[112]@);
    }
    let counts = lemma_next(112, counts, 4);
    assert(stands_for(4, 87, 113)) by {
        reveal_strlit("xattr_staging_name_no_nul");
        reveal_strlit("w9pt_fs_state_xattr_staging_name_no_nul");
        assert(NAME_PREFIX@ + group(4)[87]@ =~= CONSTRAINT_NAMES@[113]@);
    }
    let counts = lemma_next(113, counts, 4);
    assert(stands_for(4, 88, 114)) by {
        reveal_strlit("xattr_staging_expected_size_range");
        reveal_strlit("w9pt_fs_state_xattr_staging_expected_size_range");
        assert(NAME_PREFIX@ + group(4)[88]@ =~= CONSTRAINT_NAMES@[114]@);
    }
    let counts = lemma_next(114, counts, 4);
    assert(stands_for(4, 89, 115)) by {
        reveal_strlit("xattr_staging_bytes_bound");
        reveal_strlit("w9pt_fs_state_xattr_staging_bytes_bound");
        assert(NAME_PREFIX@ + group(4)[89]@ =~= CONSTRAINT_NAMES@[115]@);
    }
    let counts = lemma_next(115, counts, 4);
    assert(stands_for(4, 90, 116)) by {
        reveal_strlit("xattr_staging_progress_bound");
        reveal_strlit("w9pt_fs_state_xattr_staging_progress_bound");
        assert(NAME_PREFIX@ + group(4)[90]@ =~= CONSTRAINT_NAMES@[116]@);
    }
    let counts = lemma_next(116, counts, 4);
    assert(stands_for(4, 91, 117)) by {
        reveal_strlit("xattr_staging_record_revision_range");
        reveal_strlit("w9pt_fs_state_xattr_staging_record_revision_range");
        assert(NAME_PREFIX@ + group(4)[91]@ =~= CONSTRAINT_NAMES@[117]@);
    }
    let counts = lemma_next(117, counts, 4);
    counts
}

proof fn lemma_mutation_results_first(counts: Seq<int>) -> (next: Seq<int>)
    requires
        counts =~= seq![0int, 13, 1, 12, 92],
        covered(118, counts),
    ensures
        next =~= seq![1int, 13, 1, 12, 105],
        covered(132, next),
{
    reveal_strlit("w9pt_fs_state_");
    assert(stands_for(0, 0, 118)) by {
        reveal_strlit("mutation_results_pkey");
        reveal_strlit("w9pt_fs_state_mutation_results_pkey");
        assert(NAME_PREFIX@ + group(0)[0]@ =~= CONSTRAINT_NAMES@[118]@);
    }
    let counts = lemma_next(118, counts, 0);
    assert(stands_for(4, 92, 119)) by {
        reveal_strlit("mutation_results_filesystem_id_width");
        reveal_strlit("w9pt_fs_state_mutation_results_filesystem_id_width");
        assert(NAME_PREFIX@ + group(4)[92]@ =~= CONSTRAINT_NAMES@[119]@);
    }
    let counts = lemma_next(119, counts, 4);
    assert(stands_for(4, 93, 120)) by {
        reveal_strlit("mutation_results_mutation_id_width");
        reveal_strlit("w9pt_fs_state_mutation_results_mutation_id_width");
        assert(NAME_PREFIX@ + group(4)[93]@ =~= CONSTRAINT_NAMES@[120]@);
    }
    let counts = lemma_next(120, counts, 4);
    assert(stands_for(4, 94, 121)) by {
        reveal_strlit("mutation_results_fingerprint_width");
        reveal_strlit("w9pt_fs_state_mutation_results_fingerprint_width");
        assert(NAME_PREFIX@ + group(4)[94]@ =~= CONSTRAINT_NAMES@[121]@);
    }
    let counts = lemma_next(121, counts, 4);
    assert(stands_for(4, 95, 122)) by {
        reveal_strlit("mutation_results_client_incarnation_width");
        reveal_strlit("w9pt_fs_state_mutation_results_client_incarnation_width");
        assert(NAME_PREFIX@ + group(4)[95]@ =~= CONSTRAINT_NAMES@[122]@);
    }
    let counts = lemma_next(122, counts, 4);
    assert(stands_for(4, 96, 123)) by {
        reveal_strlit("mutation_results_writer_scope_width");
        reveal_strlit("w9pt_fs_state_mutation_results_writer_scope_width");
        assert(NAME_PREFIX@ + group(4)[96]@ =~= CONSTRAINT_NAMES@[123]@);
    }
    let counts = lemma_next(123, counts, 4);
    assert(stands_for(4, 97, 124)) by {
        reveal_strlit("mutation_results_writer_incarnation_width");
        reveal_strlit("w9pt_fs_state_mutation_results_writer_incarnation_width");
        assert(NAME_PREFIX@ + group(4)[97]@ =~= CONSTRAINT_NAMES@[124]@);
    }
    let counts = lemma_next(124, counts, 4);
    assert(stands_for(4, 98, 125)) by {
        reveal_strlit("mutation_results_fencing_token_range");
        reveal_strlit("w9pt_fs_state_mutation_results_fencing_token_range");
        assert(NAME_PREFIX@ + group(4)[98]@ =~= CONSTRAINT_NAMES@[125]@);
    }
    let counts = lemma_next(125, counts, 4);
    assert(stands_for(4, 99, 126)) by {
        reveal_strlit("mutation_results_result_kind_range");
        reveal_strlit("w9pt_fs_state_mutation_results_result_kind_range");
        assert(NAME_PREFIX@ + group(4)[99]@ =~= CONSTRAINT_NAMES@[126]@);
    }
    let counts = lemma_next(126, counts, 4);
    assert(stands_for(4, 100, 127)) by {
        reveal_strlit("mutation_results_result_format_range");
        reveal_strlit("w9pt_fs_state_mutation_results_result_format_range");
        assert(NAME_PREFIX@ + group(4)[100]@ =~= CONSTRAINT_NAMES@[127]@);
    }
    let counts = lemma_next(127, counts, 4);
    assert(stands_for(4, 101, 128)) by {
        reveal_strlit("mutation_results_result_bytes_bound");
        reveal_strlit("w9pt_fs_state_mutation_results_result_bytes_bound");
        assert(NAME_PREFIX@ + group(4)[101]@ =~= CONSTRAINT_NAMES@[128]@);
    }
    let counts = lemma_next(128, counts, 4);
    assert(stands_for(4, 102, 129)) by {
        reveal_strlit("mutation_results_committed_revision_range");
        reveal_strlit("w9pt_fs_state_mutation_results_committed_revision_range");
        assert(NAME_PREFIX@ + group(4)[102]@ =~= CONSTRAINT_NAMES@[129]@);
    }
    let counts = lemma_next(129, counts, 4);
    assert(stands_for(4, 103, 130)) by {
        reveal_strlit("mutation_results_retention_range");
        reveal_strlit("w9pt_fs_state_mutation_results_retention_range");
        assert(NAME_PREFIX@ + group(4)[103]@ =~= CONSTRAINT_NAMES@[130]@);
    }
    let counts = lemma_next(130, counts, 4);
    assert(stands_for(4, 104, 131)) by {
        reveal_strlit("mutation_results_record_revision_range");
        reveal_strlit("w9pt_fs_state_mutation_results_record_revision_range");
        assert(NAME_PREFIX@ + group(4)[104]@ =~= CONSTRAINT_NAMES@[131]@);
    }
    let counts = lemma_next(131, counts, 4);
    counts
}

proof fn lemma_mutation_results_second(counts: Seq<int>) -> (next: Seq<int>)
    requires
        counts =~= seq![1int, 13, 1, 12, 105],
        covered(132, counts),
    ensures
        next =~= seq![1int, 13, 1, 12, 106],
        covered(133, next),
{
    reveal_strlit("w9pt_fs_state_");
    assert(stands_for(4, 105, 132)) by {
        reveal_strlit("mutation_results_revision_match");
        reveal_strlit("w9pt_fs_state_mutation_results_revision_match");
        assert(NAME_PREFIX@ + group(4)[105]@ =~= CONSTRAINT_NAMES@[132]@);
    }
    let counts = lemma_next(132, counts, 4);
    counts
}

proof fn lemma_writer_fences(counts: Seq<int>) -> (next: Seq<int>)
    requires
        counts =~= seq![1int, 13, 1, 12, 106],
        covered(133, counts),
    ensures
        next =~= seq![1int, 14, 1, 12, 114],
        covered(142, next),
{
    reveal_strlit("w9pt_fs_state_");
    assert(stands_for(1, 13, 133)) by {
        reveal_strlit("writer_fences_pkey");
        reveal_strlit("w9pt_fs_state_writer_fences_pkey");
        assert(NAME_PREFIX@ + group(1)[13]@ =~= CONSTRAINT_NAMES@[133]@);
    }
    let counts = lemma_next(133, counts, 1);
    assert(stands_for(4, 106, 134)) by {
        reveal_strlit("writer_fences_filesystem_id_width");
        reveal_strlit("w9pt_fs_state_writer_fences_filesystem_id_width");
        assert(NAME_PREFIX@ + group(4)[106]@ =~= CONSTRAINT_NAMES@[134]@);
    }
    let counts = lemma_next(134, counts, 4);
    assert(stands_for(4, 107, 135)) by {
        reveal_strlit("writer_fences_scope_id_width");
        reveal_strlit("w9pt_fs_state_writer_fences_scope_id_width");
        assert(NAME_PREFIX@ + group(4)[107]@ =~= CONSTRAINT_NAMES@[135]@);
    }
    let counts = lemma_next(135, counts, 4);
    assert(stands_for(4, 108, 136)) by {
        reveal_strlit("writer_fences_token_range");
        reveal_strlit("w9pt_fs_state_writer_fences_token_range");
        assert(NAME_PREFIX@ + group(4)[108]@ =~= CONSTRAINT_NAMES@[136]@);
    }
    let counts = lemma_next(136, counts, 4);
    assert(stands_for(4, 109, 137)) by {
        reveal_strlit("writer_fences_active_fields_all_or_none");
        reveal_strlit("w9pt_fs_state_writer_fences_active_fields_all_or_none");
        assert(NAME_PREFIX@ + group(4)[109]@ =~= CONSTRAINT_NAMES@[137]@);
    }
    let counts = lemma_next(137, counts, 4);
    assert(stands_for(4, 110, 138)) by {
        reveal_strlit("writer_fences_active_holder_width");
        reveal_strlit("w9pt_fs_state_writer_fences_active_holder_width");
        assert(NAME_PREFIX@ + group(4)[110]@ =~= CONSTRAINT_NAMES@[138]@);
    }
    let counts = lemma_next(138, counts, 4);
    assert(stands_for(4, 111, 139)) by {
        reveal_strlit("writer_fences_active_lease_width");
        reveal_strlit("w9pt_fs_state_writer_fences_active_lease_width");
        assert(NAME_PREFIX@ + group(4)[111]@ =~= CONSTRAINT_NAMES@[139]@);
    }
    let counts = lemma_next(139, counts, 4);
    assert(stands_for(4, 112, 140)) by {
        reveal_strlit("writer_fences_active_deadline_range");
        reveal_strlit("w9pt_fs_state_writer_fences_active_deadline_range");
        assert(NAME_PREFIX@ + group(4)[112]@ =~= CONSTRAINT_NAMES@[140]@);
    }
    let counts = lemma_next(140, counts, 4);
    assert(stands_for(4, 113, 141)) by {
        reveal_strlit("writer_fences_active_revision_range");
        reveal_strlit("w9pt_fs_state_writer_fences_active_revision_range");
        assert(NAME_PREFIX@ + group(4)[113]@ =~= CONSTRAINT_NAMES@[141]@);
    }
    let counts = lemma_next(141, counts, 4);
    counts
}

proof fn lemma_writer_lease_operations(counts: Seq<int>) -> (next: Seq<int>)
    requires
        counts =~= seq![1int, 14, 1, 12, 114],
        covered(142, counts),
    ensures
        next =~= seq![2int, 14, 1, 12, 126],
        covered(155, next),
{
    reveal_strlit("w9pt_fs_state_");
    assert(stands_for(0, 1, 142)) by {
        reveal_strlit("writer_lease_operations_pkey");
        reveal_strlit("w9pt_fs_state_writer_lease_operations_pkey");
        assert(NAME_PREFIX@ + group(0)[1]@ =~= CONSTRAINT_NAMES@[142]@);
    }
    let counts = lemma_next(142, counts, 0);
    assert(stands_for(4, 114, 143)) by {
        reveal_strlit("writer_lease_operations_filesystem_id_width");
        reveal_strlit("w9pt_fs_state_writer_lease_operations_filesystem_id_width");
        assert(NAME_PREFIX@ + group(4)[114]@ =~= CONSTRAINT_NAMES@[143]@);
    }
    let counts = lemma_next(143, counts, 4);
    assert(stands_for(4, 115, 144)) by {
        reveal_strlit("writer_lease_operations_operation_id_width");
        reveal_strlit("w9pt_fs_state_writer_lease_operations_operation_id_width");
        assert(NAME_PREFIX@ + group(4)[115]@ =~= CONSTRAINT_NAMES@[144]@);
    }
    let counts = lemma_next(144, counts, 4);
    assert(stands_for(4, 116, 145)) by {
        reveal_strlit("writer_lease_operations_kind_tag");
        reveal_strlit("w9pt_fs_state_writer_lease_operations_kind_tag");
        assert(NAME_PREFIX@ + group(4)[116]@ =~= CONSTRAINT_NAMES@[145]@);
    }
    let counts = lemma_next(145, counts, 4);
    assert(stands_for(4, 117, 146)) by {
        reveal_strlit("writer_lease_operations_fingerprint_width");
        reveal_strlit("w9pt_fs_state_writer_lease_operations_fingerprint_width");
        assert(NAME_PREFIX@ + group(4)[117]@ =~= CONSTRAINT_NAMES@[146]@);
    }
    let counts = lemma_next(146, counts, 4);
    assert(stands_for(4, 118, 147)) by {
        reveal_strlit("writer_lease_operations_outcome_tag");
        reveal_strlit("w9pt_fs_state_writer_lease_operations_outcome_tag");
        assert(NAME_PREFIX@ + group(4)[118]@ =~= CONSTRAINT_NAMES@[147]@);
    }
    let counts = lemma_next(147, counts, 4);
    assert(stands_for(4, 119, 148)) by {
        reveal_strlit("writer_lease_operations_grant_all_or_none");
        reveal_strlit("w9pt_fs_state_writer_lease_operations_grant_all_or_none");
        assert(NAME_PREFIX@ + group(4)[119]@ =~= CONSTRAINT_NAMES@[148]@);
    }
    let counts = lemma_next(148, counts, 4);
    assert(stands_for(4, 120, 149)) by {
        reveal_strlit("writer_lease_operations_grant_shape");
        reveal_strlit("w9pt_fs_state_writer_lease_operations_grant_shape");
        assert(NAME_PREFIX@ + group(4)[120]@ =~= CONSTRAINT_NAMES@[149]@);
    }
    let counts = lemma_next(149, counts, 4);
    assert(stands_for(4, 121, 150)) by {
        reveal_strlit("writer_lease_operations_scope_width");
        reveal_strlit("w9pt_fs_state_writer_lease_operations_scope_width");
        assert(NAME_PREFIX@ + group(4)[121]@ =~= CONSTRAINT_NAMES@[150]@);
    }
    let counts = lemma_next(150, counts, 4);
    assert(stands_for(4, 122, 151)) by {
        reveal_strlit("writer_lease_operations_holder_width");
        reveal_strlit("w9pt_fs_state_writer_lease_operations_holder_width");
        assert(NAME_PREFIX@ + group(4)[122]@ =~= CONSTRAINT_NAMES@[151]@);
    }
    let counts = lemma_next(151, counts, 4);
    assert(stands_for(4, 123, 152)) by {
        reveal_strlit("writer_lease_operations_lease_id_width");
        reveal_strlit("w9pt_fs_state_writer_lease_operations_lease_id_width");
        assert(NAME_PREFIX@ + group(4)[123]@ =~= CONSTRAINT_NAMES@[152]@);
    }
    let counts = lemma_next(152, counts, 4);
    assert(stands_for(4, 124, 153)) by {
        reveal_strlit("writer_lease_operations_deadline_range");
        reveal_strlit("w9pt_fs_state_writer_lease_operations_deadline_range");
        assert(NAME_PREFIX@ + group(4)[124]@ =~= CONSTRAINT_NAMES@[153]@);
    }
    let counts = lemma_next(153, counts, 4);
    assert(stands_for(4, 125, 154)) by {
        reveal_strlit("writer_lease_operations_token_range");
        reveal_strlit("w9pt_fs_state_writer_lease_operations_token_range");
        assert(NAME_PREFIX@ + group(4)[125]@ =~= CONSTRAINT_NAMES@[154]@);
    }
    let counts = lemma_next(154, counts, 4);
    counts
}

proof fn lemma_change_commits(counts: Seq<int>) -> (next: Seq<int>)
    requires
        counts =~= seq![2int, 14, 1, 12, 126],
        covered(155, counts),
    ensures
        next =~= seq![2int, 14, 2, 12, 131],
        covered(161, next),
{
    reveal_strlit("w9pt_fs_state_");
    assert(stands_for(2, 1, 155)) by {
        reveal_strlit("change_commits_pkey");
        reveal_strlit("w9pt_fs_state_change_commits_pkey");
        assert(NAME_PREFIX@ + group(2)[1]@ =~= CONSTRAINT_NAMES@[155]@);
    }
    let counts = lemma_next(155, counts, 2);
    assert(stands_for(4, 126, 156)) by {
        reveal_strlit("change_commits_filesystem_id_width");
        reveal_strlit("w9pt_fs_state_change_commits_filesystem_id_width");
        assert(NAME_PREFIX@ + group(4)[126]@ =~= CONSTRAINT_NAMES@[156]@);
    }
    let counts = lemma_next(156, counts, 4);
    assert(stands_for(4, 127, 157)) by {
        reveal_strlit("change_commits_revision_range");
        reveal_strlit("w9pt_fs_state_change_commits_revision_range");
        assert(NAME_PREFIX@ + group(4)[127]@ =~= CONSTRAINT_NAMES@[157]@);
    }
    let counts = lemma_next(157, counts, 4);
    assert(stands_for(4, 128, 158)) by {
        reveal_strlit("change_commits_origin_kind_tag");
        reveal_strlit("w9pt_fs_state_change_commits_origin_kind_tag");
        assert(NAME_PREFIX@ + group(4)[128]@ =~= CONSTRAINT_NAMES@[158]@);
    }
    let counts = lemma_next(158, counts, 4);
    assert(stands_for(4, 129, 159)) by {
        reveal_strlit("change_commits_origin_id_width");
        reveal_strlit("w9pt_fs_state_change_commits_origin_id_width");
        assert(NAME_PREFIX@ + group(4)[129]@ =~= CONSTRAINT_NAMES@[159]@);
    }
    let counts = lemma_next(159, counts, 4);
    assert(stands_for(4, 130, 160)) by {
        reveal_strlit("change_commits_key_count_range");
        reveal_strlit("w9pt_fs_state_change_commits_key_count_range");
        assert(NAME_PREFIX@ + group(4)[130]@ =~= CONSTRAINT_NAMES@[160]@);
    }
    let counts = lemma_next(160, counts, 4);
    counts
}

proof fn lemma_change_keys(counts: Seq<int>) -> (next: Seq<int>)
    requires
        counts =~= seq![2int, 14, 2, 12, 131],
        covered(161, counts),
    ensures
        next =~= seq![2int, 14, 3, 13, 140],
        covered(172, next),
{
    reveal_strlit("w9pt_fs_state_");
    assert(stands_for(2, 2, 161)) by {
        reveal_strlit("change_keys_pkey");
        reveal_strlit("w9pt_fs_state_change_keys_pkey");
        assert(NAME_PREFIX@ + group(2)[2]@ =~= CONSTRAINT_NAMES@[161]@);
    }
    let counts = lemma_next(161, counts, 2);
    assert(stands_for(3, 12, 162)) by {
        reveal_strlit("change_keys_commit_fk");
        reveal_strlit("w9pt_fs_state_change_keys_commit_fk");
        assert(NAME_PREFIX@ + group(3)[12]@ =~= CONSTRAINT_NAMES@[162]@);
    }
    let counts = lemma_next(162, counts, 3);
    assert(stands_for(4, 131, 163)) by {
        reveal_strlit("change_keys_filesystem_id_width");
        reveal_strlit("w9pt_fs_state_change_keys_filesystem_id_width");
        assert(NAME_PREFIX@ + group(4)[131]@ =~= CONSTRAINT_NAMES@[163]@);
    }
    let counts = lemma_next(163, counts, 4);
    assert(stands_for(4, 132, 164)) by {
        reveal_strlit("change_keys_revision_range");
        reveal_strlit("w9pt_fs_state_change_keys_revision_range");
        assert(NAME_PREFIX@ + group(4)[132]@ =~= CONSTRAINT_NAMES@[164]@);
    }
    let counts = lemma_next(164, counts, 4);
    assert(stands_for(4, 133, 165)) by {
        reveal_strlit("change_keys_ordinal_range");
        reveal_strlit("w9pt_fs_state_change_keys_ordinal_range");
        assert(NAME_PREFIX@ + group(4)[133]@ =~= CONSTRAINT_NAMES@[165]@);
    }
    let counts = lemma_next(165, counts, 4);
    assert(stands_for(4, 134, 166)) by {
        reveal_strlit("change_keys_family_tag");
        reveal_strlit("w9pt_fs_state_change_keys_family_tag");
        assert(NAME_PREFIX@ + group(4)[134]@ =~= CONSTRAINT_NAMES@[166]@);
    }
    let counts = lemma_next(166, counts, 4);
    assert(stands_for(4, 135, 167)) by {
        reveal_strlit("change_keys_component_a_width");
        reveal_strlit("w9pt_fs_state_change_keys_component_a_width");
        assert(NAME_PREFIX@ + group(4)[135]@ =~= CONSTRAINT_NAMES@[167]@);
    }
    let counts = lemma_next(167, counts, 4);
    assert(stands_for(4, 136, 168)) by {
        reveal_strlit("change_keys_component_b_bound");
        reveal_strlit("w9pt_fs_state_change_keys_component_b_bound");
        assert(NAME_PREFIX@ + group(4)[136]@ =~= CONSTRAINT_NAMES@[168]@);
    }
    let counts = lemma_next(168, counts, 4);
    assert(stands_for(4, 137, 169)) by {
        reveal_strlit("change_keys_component_shape");
        reveal_strlit("w9pt_fs_state_change_keys_component_shape");
        assert(NAME_PREFIX@ + group(4)[137]@ =~= CONSTRAINT_NAMES@[169]@);
    }
    let counts = lemma_next(169, counts, 4);
    assert(stands_for(4, 138, 170)) by {
        reveal_strlit("change_keys_component_b_shape");
        reveal_strlit("w9pt_fs_state_change_keys_component_b_shape");
        assert(NAME_PREFIX@ + group(4)[138]@ =~= CONSTRAINT_NAMES@[170]@);
    }
    let counts = lemma_next(170, counts, 4);
    assert(stands_for(4, 139, 171)) by {
        reveal_strlit("change_keys_name_shape");
        reveal_strlit("w9pt_fs_state_change_keys_name_shape");
        assert(NAME_PREFIX@ + group(4)[139]@ =~= CONSTRAINT_NAMES@[171]@);
    }
    let counts = lemma_next(171, counts, 4);
    counts
}

proof fn lemma_all_covered() -> (counts: Seq<int>)
    ensures
        counts =~= seq![2int, 14, 3, 13, 140],
        covered(172, counts),
{
    let counts = seq![0int, 0, 0, 0, 0];
    assert(covered(0, counts)) by {
        reveal(covered);
    }
    let counts = lemma_schema_migrations(counts);
    let counts = lemma_authority_heads(counts);
    let counts = lemma_filesystem_records(counts);
    let counts = lemma_inodes_first(counts);
    let counts = lemma_inodes_second(counts);
    let counts = lemma_inodes_third(counts);
    let counts = lemma_directory_entries(counts);
    let counts = lemma_opens(counts);
    let counts = lemma_open_pins(counts);
    let counts = lemma_orphans(counts);
    let counts = lemma_locks(counts);
    let counts = lemma_xattrs(counts);
    let counts = lemma_xattr_staging(counts);
    let counts = lemma_mutation_results_first(counts);
    let counts = lemma_mutation_results_second(counts);
    let counts = lemma_writer_fences(counts);
    let counts = lemma_writer_lease_operations(counts);
    let counts = lemma_change_commits(counts);
    let counts = lemma_change_keys(counts);
    counts
}

/// A failure names a constraint of the schema.
pub open spec fn schema_constraint(name: Seq<char>) -> bool {
    exists|i: int| 0 <= i < CONSTRAINT_NAMES@.len() && (#[trigger] CONSTRAINT_NAMES@[i])@ == name
}

/// A code and a name are recognized as a violated constraint.
pub open spec fn recognized_under(
    phase: SqlOperationPhase,
    code: Seq<char>,
    name: Seq<char>,
) -> bool {
    sqlstate::sqlstate_class(phase, code, Some(name)) is KnownConstraint
}

/// The kind of constraint that a code reports.
spec fn code_kind(code: Seq<char>) -> Option<ConstraintKind> {
    if code == "23505"@ {
        Some(ConstraintKind::Unique)
    } else if code == "23503"@ {
        Some(ConstraintKind::ForeignKey)
    } else if code == "23514"@ {
        Some(ConstraintKind::Check)
    } else {
        None
    }
}

proof fn lemma_codes_differ()
    ensures
        "40001"@ != "23505"@,
        "40001"@ != "23503"@,
        "40001"@ != "23514"@,
        "40P01"@ != "23505"@,
        "40P01"@ != "23503"@,
        "40P01"@ != "23514"@,
        "23505"@ != "23503"@,
        "23505"@ != "23514"@,
        "23503"@ != "23514"@,
{
    reveal_strlit("40001");
    reveal_strlit("40P01");
    reveal_strlit("23505");
    reveal_strlit("23503");
    reveal_strlit("23514");
    assert("40001"@[0] == '4');
    assert("40P01"@[0] == '4');
    assert("23505"@[0] == '2');
    assert("23503"@[0] == '2');
    assert("23514"@[0] == '2');
    assert("23505"@[4] == '5');
    assert("23503"@[4] == '3');
    assert("23514"@[4] == '4');
}

proof fn lemma_recognized_name(phase: SqlOperationPhase, code: Seq<char>, name: Seq<char>)
    requires
        recognized_under(phase, code, name),
    ensures
        schema_constraint(name),
        code_kind(code) == Some(ending(name)),
{
    let counts = lemma_all_covered();
    reveal(covered);
    let number = if code == "23503"@ {
        3int
    } else if code == "23514"@ {
        4
    } else if sqlstate::listed(UNIQUE_LEDGER@, name) {
        0
    } else if sqlstate::listed(UNIQUE_SEMANTIC@, name) {
        1
    } else {
        2
    };
    lemma_codes_differ();
    assert(sqlstate::listed(group(number), name));
    let index = choose|i: int|
        0 <= i < group(number).len() && name == NAME_PREFIX@ + (#[trigger] group(number)[i])@;
    assert(counts[number] == group(number).len());
    assert(owned(number, index, 172));
    let position = choose|position: int|
        0 <= position < 172 && #[trigger] stands_for(number, index, position);
    assert(CONSTRAINT_NAMES@[position]@ == name);
}

proof fn lemma_schema_name(phase: SqlOperationPhase, name: Seq<char>) -> (code: Seq<char>)
    requires
        schema_constraint(name),
    ensures
        recognized_under(phase, code, name),
{
    let counts = lemma_all_covered();
    reveal(covered);
    let position = choose|i: int|
        0 <= i < CONSTRAINT_NAMES@.len() && (#[trigger] CONSTRAINT_NAMES@[i])@ == name;
    assert(recognized(position, counts));
    let (number, index) = choose|number: int, index: int|
        0 <= number < 5 && 0 <= index < counts[number] && #[trigger] stands_for(
            number,
            index,
            position,
        );
    assert(counts[number] == group(number).len());
    assert(name == NAME_PREFIX@ + group(number)[index]@);
    assert(sqlstate::listed(group(number), name));
    lemma_codes_differ();
    if number == 3 {
        "23503"@
    } else if number == 4 {
        "23514"@
    } else {
        "23505"@
    }
}

/// In every phase the names that some code makes a recognized constraint are
/// exactly the constraint names of the schema.
pub proof fn law_schema_constraints_are_recognized(phase: SqlOperationPhase, name: Seq<char>)
    ensures
        schema_constraint(name) <==> exists|code: Seq<char>|
            #[trigger] recognized_under(phase, code, name),
{
    if schema_constraint(name) {
        let code = lemma_schema_name(phase, name);
        assert(recognized_under(phase, code, name));
    }
    if exists|code: Seq<char>| #[trigger] recognized_under(phase, code, name) {
        let code = choose|code: Seq<char>| #[trigger] recognized_under(phase, code, name);
        lemma_recognized_name(phase, code, name);
    }
}

/// A constraint is recognized under exactly one code, which is the code of a
/// broken unique, foreign-key or check constraint.
pub proof fn law_constraints_have_one_code(
    phase: SqlOperationPhase,
    code: Seq<char>,
    other: Seq<char>,
    name: Seq<char>,
)
    requires
        recognized_under(phase, code, name),
        recognized_under(phase, other, name),
    ensures
        code == other,
        code == "23505"@ || code == "23503"@ || code == "23514"@,
{
    lemma_recognized_name(phase, code, name);
    lemma_recognized_name(phase, other, name);
}

} // verus!
