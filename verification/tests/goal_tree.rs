use addness::goal::{Goal, GoalChildNode, GoalNode, GoalTreeItem, GroupMap};

fn item(id: &str, parent: Option<&str>) -> GoalTreeItem {
    GoalTreeItem {
        id: id.to_string(),
        title: format!("T{id}"),
        parent_id: parent.map(str::to_string),
        status: None,
        is_completed: false,
        has_children: false,
        owner: None,
    }
}

fn shape(nodes: &[GoalChildNode<String, String>]) -> String {
    let mut out = Vec::new();
    for n in nodes {
        let kids = shape(n.children.as_deref().unwrap_or(&[]));
        if kids.is_empty() {
            out.push(n.goal.id.clone());
        } else {
            out.push(format!("{}({})", n.goal.id, kids));
        }
    }
    out.join(",")
}

#[test]
fn forest_nests_goals_under_their_parents_in_order() {
    let goals = vec![
        item("a", Some("root")),
        item("a1", Some("a")),
        item("b", Some("root")),
        item("a2", Some("a")),
        item("b1", Some("b")),
        item("x", None),
    ];
    let mut deliverables: GroupMap<String> = GroupMap::new();
    deliverables.insert("a1".to_string(), vec!["plan.md".to_string()]);
    let comments: GroupMap<String> = GroupMap::new();
    let forest = GoalNode::build_forest("root", goals, deliverables, comments);
    assert_eq!(shape(&forest), "a(a1,a2),b(b1)");
    let a1 = &forest[0].children.as_ref().unwrap()[0];
    assert_eq!(a1.deliverables, Some(vec!["plan.md".to_string()]));
    assert_eq!(forest[1].deliverables, None);
}

#[test]
fn a_cycle_is_entered_once() {
    let goals = vec![item("a", Some("root")), item("b", Some("a")), item("a", Some("b"))];
    let forest = GoalNode::<String, String>::build_forest(
        "root",
        goals,
        GroupMap::new(),
        GroupMap::new(),
    );
    assert_eq!(shape(&forest), "a(b(a))");
}

#[test]
fn build_tree_keeps_the_root_goal_and_its_attachments() {
    let goal = Goal {
        id: "root".to_string(),
        title: "Root".to_string(),
        description: None,
        parent_id: None,
        owner: None,
        due_date: None,
        body: None,
        status: None,
        is_completed: false,
    };
    let tree = GoalNode::build_tree(
        goal,
        Some(vec!["d".to_string()]),
        None,
        Some(vec![item("c", Some("root"))]),
        GroupMap::new(),
        GroupMap::<String>::new(),
    );
    assert_eq!(tree.goal.id, "root");
    assert_eq!(tree.deliverables, Some(vec!["d".to_string()]));
    assert!(tree.comments.is_none());
    assert_eq!(shape(tree.children.as_ref().unwrap()), "c");
    let bare = GoalNode::<String, String>::build_tree(
        Goal {
            id: "g".to_string(),
            title: "G".to_string(),
            description: None,
            parent_id: None,
            owner: None,
            due_date: None,
            body: None,
            status: None,
            is_completed: true,
        },
        None,
        None,
        None,
        GroupMap::new(),
        GroupMap::new(),
    );
    assert!(bare.children.is_none());
}

#[test]
fn group_map_take_removes_the_list() {
    let mut m: GroupMap<u32> = GroupMap::new();
    m.push_into("k".to_string(), 1);
    m.push_into("k".to_string(), 2);
    m.push_into("j".to_string(), 3);
    assert_eq!(m.take("k"), Some(vec![1, 2]));
    assert_eq!(m.take("k"), None);
    assert_eq!(m.take("j"), Some(vec![3]));
}
