use todo_leptos::components::todo_item::TodoItem;
use todo_leptos::models::todo::Todo;

fn row(status: bool) -> TodoItem {
    TodoItem::new(Todo { id: 4, task: "Water the plants".to_string(), status })
}

#[test]
fn row_copies_its_task() {
    let open = row(false);
    assert_eq!(open, TodoItem { id: 4, task: "Water the plants".to_string(), status: false });
    assert_eq!(open.key(), 4);
    assert_eq!(open.clone(), open);
    assert_eq!(row(true).status, true);
}

#[test]
fn span_class_strikes_complete_tasks() {
    assert_eq!(row(true).span_class(), "text-md line-through");
    assert_eq!(row(false).span_class(), "text-md ");
}

#[test]
fn completed_button_class_dims_complete_tasks() {
    assert_eq!(row(false).completed_button_class(), "hover:cursor-pointer opacity-100");
    assert_eq!(row(true).completed_button_class(), "hover:cursor-pointer opacity-50");
}

#[test]
fn button_label_names_the_next_step() {
    assert_eq!(row(false).button_label(), "Complete");
    assert_eq!(row(true).button_label(), "Undo");
}

#[test]
fn update_form_submits_the_opposite_status() {
    assert_eq!(row(false).submitted_status(), true);
    assert_eq!(row(false).status_value(), "true");
    assert_eq!(row(true).submitted_status(), false);
    assert_eq!(row(true).status_value(), "false");
}

#[test]
fn click_flips_the_row() {
    let mut item = row(false);
    item.toggle();
    assert_eq!(item, TodoItem { id: 4, task: "Water the plants".to_string(), status: true });
    assert_eq!(item.button_label(), "Undo");
    item.toggle();
    assert_eq!(item, row(false));
}
