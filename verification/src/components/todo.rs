//! A list of to-do items: priorities, and the figures shown above the list.

use crate::text::{decimal, decimal_string};
use vstd::prelude::*;

verus! {

/// How urgent a to-do item is.
#[derive(Debug, Clone, PartialEq)]
pub enum Priority {
    Low,
    Medium,
    High,
    Urgent,
}

impl Priority {
    /// The colour that marks the priority, as a CSS colour.
    pub open spec fn color(self) -> Seq<char> {
        match self {
            Priority::Low => "#28a745"@,
            Priority::Medium => "#ffc107"@,
            Priority::High => "#fd7e14"@,
            Priority::Urgent => "#dc3545"@,
        }
    }

    /// The word that names the priority.
    pub open spec fn label(self) -> Seq<char> {
        match self {
            Priority::Low => "低"@,
            Priority::Medium => "中"@,
            Priority::High => "高"@,
            Priority::Urgent => "紧急"@,
        }
    }

    /// The colour that marks the priority: green, yellow, orange and red,
    /// from the lowest to the highest.
    pub fn to_color(&self) -> (r: &'static str)
        ensures
            r@ == self.color(),
    {
        match self {
            Priority::Low => "#28a745",
            Priority::Medium => "#ffc107",
            Priority::High => "#fd7e14",
            Priority::Urgent => "#dc3545",
        }
    }

    /// The word that names the priority.
    pub fn to_string(&self) -> (r: &'static str)
        ensures
            r@ == self.label(),
    {
        match self {
            Priority::Low => "低",
            Priority::Medium => "中",
            Priority::High => "高",
            Priority::Urgent => "紧急",
        }
    }
}

/// One thing to do.
#[derive(Debug, Clone, PartialEq)]
pub struct TodoItem {
    pub id: u32,
    pub text: String,
    pub completed: bool,
    pub priority: Priority,
    pub created_at: String,
}

/// The items of a list that are completed.
pub open spec fn completed_items(items: Seq<TodoItem>) -> Seq<TodoItem> {
    items.filter(|item: TodoItem| item.completed)
}

/// The figures of a list: how many items it has, how many of them are still
/// to do, and how many are completed, in this order.
pub fn todo_stats(items: &Vec<TodoItem>) -> (r: (usize, usize, usize))
    ensures
        r.0 == items@.len(),
        r.2 == completed_items(items@).len(),
        r.1 == r.0 - r.2,
{
    let total: usize = items.len();
    let mut completed: usize = 0;
    let mut i: usize = 0;
    while i < total
        invariant
            total == items@.len(),
            i <= total,
            completed <= i,
            completed == completed_items(items@.take(i as int)).len(),
        decreases total - i,
    {
        proof {
            reveal(Seq::filter);
            assert(items@.take(i + 1).drop_last() =~= items@.take(i as int));
        }
        if items[i].completed {
            completed += 1;
        }
        i += 1;
    }
    proof {
        assert(items@.take(total as int) =~= items@);
    }
    (total, total - completed, completed)
}

/// The line under a list with `active` items still to do.
pub open spec fn summary_text(active: nat) -> Seq<char> {
    if active > 0 {
        "还有 "@ + decimal(active) + " 个任务待完成！"@
    } else {
        "🎉 所有任务都完成了！"@
    }
}

/// The line under a list: how many items are still to do, or that all are
/// done.
pub fn todo_summary(active: usize) -> (r: String)
    ensures
        r@ == summary_text(active as nat),
{
    if active > 0 {
        let count = decimal_string(active);
        String::from_str("还有 ").concat(count.as_str()).concat(" 个任务待完成！")
    } else {
        String::from_str("🎉 所有任务都完成了！")
    }
}

} // verus!
