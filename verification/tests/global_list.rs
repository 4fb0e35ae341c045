use ripewire::global_list::GlobalList;
use ripewire::protocol::pw_registry::events::{Global, GlobalRemove};
use ripewire::protocol::pw_registry::Event;

fn global(id: u32, interface: &str) -> Event {
    Event::Global(Global {
        id,
        permissions: 0,
        interface: interface.to_string(),
        version: 3,
        properties: vec![],
    })
}

#[test]
fn count_follows_announced_globals() {
    let mut list = GlobalList::default();
    assert!(list.is_empty());
    let events = vec![
        global(1, "PipeWire:Interface:Node"),
        Event::GlobalRemove(GlobalRemove { id: 1 }),
        global(2, "PipeWire:Interface:Device"),
        global(3, "PipeWire:Interface:Link"),
        Event::GlobalRemove(GlobalRemove { id: 9 }),
    ];
    for e in events.iter() {
        list.handle_event(e);
    }
    assert_eq!(list.len(), 3);
    let ids: Vec<u32> = list.iter().iter().map(|g| g.id).collect();
    assert_eq!(ids, vec![1, 2, 3]);
    assert_eq!(list.iter()[1].interface, "PipeWire:Interface:Device");
}
