use vstd::prelude::*;

verus! {

/// One row of the discovery queue: a repository waiting at a position, until the reel
/// consumes it.
#[derive(Clone, Copy, Debug)]
pub struct QueueRow {
    pub id: i64,
    pub repository_id: i64,
    pub position: i64,
    pub consumed: bool,
}

/// Every row of the queue has its own id.
pub open spec fn distinct_row_ids(queue: Seq<QueueRow>) -> bool {
    forall|i: int, j: int|
        0 <= i < queue.len() && 0 <= j < queue.len() && i != j ==> #[trigger] queue[i].id
            != #[trigger] queue[j].id
}

/// Row `i` comes before row `j` in the reel: a smaller position, or the same position and
/// an earlier row.
pub open spec fn comes_before(queue: Seq<QueueRow>, i: int, j: int) -> bool {
    queue[i].position < queue[j].position || (queue[i].position == queue[j].position && i <= j)
}

/// Row `i` is the head of the queue: not consumed, and before every other row that is not
/// consumed.
pub open spec fn is_queue_head(queue: Seq<QueueRow>, i: int) -> bool {
    &&& 0 <= i < queue.len()
    &&& !queue[i].consumed
    &&& forall|j: int| 0 <= j < queue.len() && !(#[trigger] queue[j]).consumed ==> comes_before(queue, i, j)
}

/// Whether every row of the queue is consumed.
pub open spec fn all_consumed(queue: Seq<QueueRow>) -> bool {
    forall|j: int| 0 <= j < queue.len() ==> (#[trigger] queue[j]).consumed
}

/// The index of the row the reel shows next: the unconsumed row with the smallest
/// position (the earliest of equal ones), or `None` when every row is consumed.
pub fn queue_head(queue: &Vec<QueueRow>) -> (r: Option<usize>)
    ensures
        match r {
            Some(i) => is_queue_head(queue@, i as int),
            None => all_consumed(queue@),
        },
{
    let n = queue.len();
    let mut best: Option<usize> = None;
    for i in 0..n
        invariant
            n == queue@.len(),
            match best {
                Some(b) => {
                    &&& b < i
                    &&& !queue@[b as int].consumed
                    &&& forall|j: int| 0 <= j < i && !(#[trigger] queue@[j]).consumed ==> comes_before(queue@, b as int, j)
                },
                None => forall|j: int| 0 <= j < i ==> (#[trigger] queue@[j]).consumed,
            },
    {
        if !queue[i].consumed {
            match best {
                Some(b) => {
                    if queue[i].position < queue[b].position {
                        best = Some(i);
                    }
                },
                None => {
                    best = Some(i);
                },
            }
        }
    }
    best
}

/// The queue has at most one head.
pub proof fn law_queue_has_one_head(queue: Seq<QueueRow>, i: int, j: int)
    requires
        is_queue_head(queue, i),
        is_queue_head(queue, j),
    ensures
        i == j,
{
    assert(comes_before(queue, i, j) && comes_before(queue, j, i));
}

/// The greatest position in the queue, if it has any row.
pub open spec fn max_position(queue: Seq<QueueRow>) -> Option<int>
    decreases queue.len(),
{
    if queue.len() == 0 {
        None
    } else {
        match max_position(queue.drop_last()) {
            Some(m) => if queue.last().position > m {
                Some(queue.last().position as int)
            } else {
                Some(m)
            },
            None => Some(queue.last().position as int),
        }
    }
}

/// The position a newly queued row takes, as `COALESCE(MAX(position), 0) + 1`: one after
/// the greatest position so far, or 1 for an empty queue.
pub open spec fn next_position_spec(queue: Seq<QueueRow>) -> int {
    match max_position(queue) {
        Some(m) => m + 1,
        None => 1,
    }
}

/// The greatest position is the position of some row and no row has a greater one.
pub proof fn lemma_max_position(queue: Seq<QueueRow>)
    ensures
        queue.len() == 0 <==> max_position(queue) is None,
        max_position(queue) matches Some(m) ==> (forall|j: int| 0 <= j < queue.len() ==> (#[trigger] queue[j]).position <= m)
            && (exists|j: int| 0 <= j < queue.len() && (#[trigger] queue[j]).position == m),
    decreases queue.len(),
{
    if queue.len() > 0 {
        let rest = queue.drop_last();
        lemma_max_position(rest);
        let m = max_position(queue)->0;
        assert forall|j: int| 0 <= j < queue.len() implies (#[trigger] queue[j]).position <= m by {
            if j < queue.len() - 1 {
                assert(queue[j] == rest[j]);
            }
        }
        if m == queue.last().position {
            assert(queue[queue.len() - 1].position == m);
        } else {
            let j = choose|j: int| 0 <= j < rest.len() && (#[trigger] rest[j]).position == max_position(rest)->0;
            assert(queue[j] == rest[j]);
        }
    }
}

/// The position of the next queued row is greater than every position in the queue.
pub proof fn lemma_next_position_after_all(queue: Seq<QueueRow>)
    ensures
        forall|j: int| 0 <= j < queue.len() ==> (#[trigger] queue[j]).position < next_position_spec(queue),
{
    lemma_max_position(queue);
}

/// The position for a row appended to the queue.
pub fn next_position(queue: &Vec<QueueRow>) -> (p: i64)
    requires
        forall|j: int| 0 <= j < queue@.len() ==> (#[trigger] queue@[j]).position < i64::MAX,
    ensures
        p == next_position_spec(queue@),
{
    let n = queue.len();
    let mut best: Option<i64> = None;
    for i in 0..n
        invariant
            n == queue@.len(),
            forall|j: int| 0 <= j < queue@.len() ==> (#[trigger] queue@[j]).position < i64::MAX,
            match best {
                Some(b) => max_position(queue@.take(i as int)) == Some(b as int),
                None => max_position(queue@.take(i as int)) is None,
            },
    {
        proof {
            assert(queue@.take(i + 1).drop_last() =~= queue@.take(i as int));
        }
        let position = queue[i].position;
        match best {
            Some(b) => {
                if position > b {
                    best = Some(position);
                }
            },
            None => {
                best = Some(position);
            },
        }
    }
    proof {
        assert(queue@.take(n as int) =~= queue@);
        lemma_max_position(queue@);
    }
    match best {
        Some(b) => {
            proof {
                let j = choose|j: int| 0 <= j < queue@.len() && (#[trigger] queue@[j]).position == b;
            }
            b + 1
        },
        None => 1,
    }
}

/// The rows of `repository_id` that are not consumed yet: skipping a
/// repository consumes exactly these.
pub open spec fn open_rows_of(queue: Seq<QueueRow>, repository_id: i64) -> Seq<QueueRow> {
    queue.filter(|row: QueueRow| row.repository_id == repository_id && !row.consumed)
}

/// The ids of the open rows of a repository, in queue order.
pub open spec fn open_row_ids(queue: Seq<QueueRow>, repository_id: i64) -> Seq<i64> {
    open_rows_of(queue, repository_id).map_values(|row: QueueRow| row.id)
}

/// The ids of the unconsumed rows of a repository, in queue order.
pub fn rows_to_consume(queue: &Vec<QueueRow>, repository_id: i64) -> (ids: Vec<i64>)
    ensures
        ids@ == open_row_ids(queue@, repository_id),
{
    let n = queue.len();
    let mut ids: Vec<i64> = Vec::new();
    for i in 0..n
        invariant
            n == queue@.len(),
            ids@ == open_rows_of(queue@.take(i as int), repository_id).map_values(
                |row: QueueRow| row.id,
            ),
    {
        proof {
            assert(queue@.take(i + 1).drop_last() =~= queue@.take(i as int));
            reveal_with_fuel(Seq::filter, 1);
        }
        if queue[i].repository_id == repository_id && !queue[i].consumed {
            ids.push(queue[i].id);
        }
        proof {
            let f = |row: QueueRow| row.repository_id == repository_id && !row.consumed;
            let before = queue@.take(i as int).filter(f);
            let after = queue@.take(i + 1).filter(f);
            if f(queue@[i as int]) {
                assert(after == before.push(queue@[i as int]));
                assert(after.map_values(|row: QueueRow| row.id) =~= before.map_values(
                    |row: QueueRow| row.id,
                ).push(queue@[i as int].id));
            } else {
                assert(after == before);
            }
        }
    }
    proof {
        assert(queue@.take(n as int) =~= queue@);
    }
    ids
}

/// The queue after the rows whose ids are listed are marked consumed.
pub open spec fn consume_ids(queue: Seq<QueueRow>, ids: Seq<i64>) -> Seq<QueueRow> {
    queue.map_values(
        |row: QueueRow|
            if ids.contains(row.id) {
                QueueRow { consumed: true, ..row }
            } else {
                row
            },
    )
}

/// The queue with `row` appended.
pub open spec fn enqueue_row(queue: Seq<QueueRow>, row: QueueRow) -> Seq<QueueRow> {
    queue.push(row)
}

/// A claimed row is shown once: after the head row is consumed, the head is another row,
/// or the queue is used up.
pub proof fn law_claimed_row_is_not_shown_again(queue: Seq<QueueRow>, head: int)
    requires
        distinct_row_ids(queue),
        is_queue_head(queue, head),
    ensures
        consume_ids(queue, seq![queue[head].id])[head].consumed,
        forall|i: int| #[trigger] is_queue_head(consume_ids(queue, seq![queue[head].id]), i) ==> i != head
            && queue[i].id != queue[head].id,
{
    let after = consume_ids(queue, seq![queue[head].id]);
    let ids = seq![queue[head].id];
    assert(ids[0] == queue[head].id);
    assert(ids.contains(queue[head].id));
    assert forall|i: int| #[trigger] is_queue_head(after, i) implies i != head && queue[i].id
        != queue[head].id by {
        if queue[i].id == queue[head].id {
            assert(ids.contains(queue[i].id));
        }
    }
}

/// New rows queue up behind the rows that are waiting: appending a row at the next
/// position keeps the head where it was, and an exhausted queue gets the new row as head.
pub proof fn law_enqueue_keeps_head(queue: Seq<QueueRow>, row: QueueRow)
    requires
        row.position == next_position_spec(queue),
        !row.consumed,
    ensures
        forall|i: int| is_queue_head(queue, i) ==> is_queue_head(#[trigger] enqueue_row(queue, row), i),
        all_consumed(queue) ==> is_queue_head(enqueue_row(queue, row), queue.len() as int),
{
    lemma_next_position_after_all(queue);
    let after = enqueue_row(queue, row);
    assert forall|i: int| is_queue_head(queue, i) implies is_queue_head(#[trigger] enqueue_row(queue, row), i) by {
        assert forall|j: int| 0 <= j < after.len() && !(#[trigger] after[j]).consumed implies comes_before(
            after,
            i,
            j,
        ) by {
            if j < queue.len() {
                assert(after[j] == queue[j]);
            }
        }
    }
    if all_consumed(queue) {
        assert forall|j: int| 0 <= j < after.len() && !(#[trigger] after[j]).consumed implies comes_before(
            after,
            queue.len() as int,
            j,
        ) by {
            if j < queue.len() {
                assert(after[j] == queue[j]);
            }
        }
    }
}

/// Skipping a repository takes it off the reel: once its open rows are consumed, no row of
/// it is the head.
pub proof fn law_skipped_repository_leaves_queue(queue: Seq<QueueRow>, repository_id: i64)
    ensures
        forall|i: int| #[trigger] is_queue_head(
            consume_ids(queue, open_row_ids(queue, repository_id)),
            i,
        ) ==> queue[i].repository_id != repository_id,
{
    let ids = open_row_ids(queue, repository_id);
    let after = consume_ids(queue, ids);
    assert forall|i: int| #[trigger] is_queue_head(after, i) implies queue[i].repository_id != repository_id by {
        if queue[i].repository_id == repository_id {
            if !queue[i].consumed {
                let f = |row: QueueRow| row.repository_id == repository_id && !row.consumed;
                queue.lemma_filter_contains(f, i);
                assert(queue.filter(f).contains(queue[i]));
                let k = choose|k: int| 0 <= k < queue.filter(f).len() && queue.filter(f)[k] == queue[i];
                assert(ids[k] == queue[i].id);
                assert(ids.contains(queue[i].id));
            }
        }
    }
}

/// Whether `id` is the id of a row of the repository that is not consumed yet.
pub open spec fn is_open_row_id_of(queue: Seq<QueueRow>, repository_id: i64, id: i64) -> bool {
    exists|j: int|
        0 <= j < queue.len() && (#[trigger] queue[j]).id == id && queue[j].repository_id == repository_id
            && !queue[j].consumed
}

/// Skipping consumes only the skipped repository's waiting rows: every id it lists is the
/// id of a row of that repository that is not consumed yet, every such row is listed, and,
/// row ids being distinct, no row of another repository changes.
pub proof fn law_skip_consumes_only_its_open_rows(queue: Seq<QueueRow>, repository_id: i64)
    ensures
        forall|k: int|
            0 <= k < open_row_ids(queue, repository_id).len() ==> is_open_row_id_of(
                queue,
                repository_id,
                #[trigger] open_row_ids(queue, repository_id)[k],
            ),
        forall|j: int|
            0 <= j < queue.len() && (#[trigger] queue[j]).repository_id == repository_id && !queue[j].consumed
                ==> open_row_ids(queue, repository_id).contains(queue[j].id),
        distinct_row_ids(queue) ==> forall|j: int|
            0 <= j < queue.len() && (#[trigger] queue[j]).repository_id != repository_id ==> consume_ids(
                queue,
                open_row_ids(queue, repository_id),
            )[j] == queue[j],
{
    let f = |row: QueueRow| row.repository_id == repository_id && !row.consumed;
    let rows = queue.filter(f);
    let ids = open_row_ids(queue, repository_id);
    assert(rows == open_rows_of(queue, repository_id));
    assert forall|k: int| 0 <= k < open_row_ids(queue, repository_id).len() implies is_open_row_id_of(
        queue,
        repository_id,
        #[trigger] open_row_ids(queue, repository_id)[k],
    ) by {
        assert(k < rows.len());
        queue.lemma_filter_pred(f, k);
        assert(f(rows[k]));
        queue.lemma_filter_contains_rev(f, rows[k]);
        assert(queue.contains(rows[k]));
        let j = choose|j: int| 0 <= j < queue.len() && queue[j] == rows[k];
        assert(open_row_ids(queue, repository_id)[k] == rows[k].id);
        assert(queue[j].id == open_row_ids(queue, repository_id)[k]);
        assert(queue[j].repository_id == repository_id && !queue[j].consumed);
        assert(queue[j] == queue[j]);
    }
    assert forall|j: int| 0 <= j < queue.len() && (#[trigger] queue[j]).repository_id == repository_id
        && !queue[j].consumed implies ids.contains(queue[j].id) by {
        queue.lemma_filter_contains(f, j);
        let k = choose|k: int| 0 <= k < rows.len() && rows[k] == queue[j];
        assert(ids[k] == queue[j].id);
    }
    if distinct_row_ids(queue) {
        assert forall|j: int| 0 <= j < queue.len() && (#[trigger] queue[j]).repository_id
            != repository_id implies consume_ids(queue, ids)[j] == queue[j] by {
            if ids.contains(queue[j].id) {
                let k = choose|k: int| 0 <= k < ids.len() && ids[k] == queue[j].id;
                assert(is_open_row_id_of(queue, repository_id, open_row_ids(queue, repository_id)[k]));
                let j2 = choose|j2: int|
                    0 <= j2 < queue.len() && (#[trigger] queue[j2]).id == ids[k] && queue[j2].repository_id
                        == repository_id && !queue[j2].consumed;
                assert(queue[j2].id == queue[j].id);
                assert(j2 != j);
            }
        }
    }
}

} // verus!
