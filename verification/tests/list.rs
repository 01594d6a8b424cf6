use singly_linked_list::SinglyLinkedList;

use std::collections::LinkedList;

#[test]
fn linked_list_of_strings() {
    let mut list = SinglyLinkedList::new();
    list.push("rust");
    list.push("bytes");
    list.push("compiler");
    assert_eq!(list.pop(), Some("compiler"));
}

#[test]
fn push_an_element_to_a_singly_linked_list() {
    let mut list = SinglyLinkedList::new();
    list.push(-337);
    assert_eq!(list.pop(), Some(-337));
}

#[test]
fn pop_from_empty_singly_linked_list() {
    let mut list = SinglyLinkedList::<u32>::new();
    assert_eq!(list.pop(), None);
}

#[test]
fn pop_from_a_list_of_one_item() {
    let mut list = SinglyLinkedList::new();
    list.push(100);
    assert_eq!(list.pop(), Some(100));
}

#[test]
fn pop_from_a_list_of_three_items() {
    let mut list = SinglyLinkedList::new();

    list.push(100);
    list.push(230);
    list.push(-56);
    assert_eq!(list.pop(), Some(-56));
}

#[test]
fn current_head_immutably() {
    let mut list = SinglyLinkedList::new();

    list.push(100);
    list.push(20);
    list.push(-56);

    assert_eq!(list.front(), Some(&-56));
}

#[test]
fn current_head_mutably() {
    let mut list = SinglyLinkedList::new();

    list.push(100);
    list.push(20);
    list.push(-56);
    assert_eq!(list.front_mut(), Some(&mut -56));

    list.front_mut().map(|node_data| *node_data = 9);
    assert_eq!(list.front(), Some(&9));
}

#[test]
fn into_iter_on_list() {
    let mut list = SinglyLinkedList::new();

    list.push(100);
    list.push(20);
    list.push(-56);

    let mut iter = list.into_iter();
    assert_eq!(iter.next(), Some(-56));
    assert_eq!(iter.next(), Some(20));
    assert_eq!(iter.next(), Some(100));
}

#[test]
fn iter_on_list() {
    let mut list = SinglyLinkedList::new();

    list.push(100);
    list.push(20);
    list.push(-56);

    let mut iter = list.iter();
    assert_eq!(iter.next(), Some(&-56));
    assert_eq!(iter.next(), Some(&20));
    assert_eq!(iter.next(), Some(&100));
}

#[test]
fn mutable_iter_on_list() {
    let mut list = SinglyLinkedList::new();

    list.push(100);
    list.push(20);
    list.push(-56);

    let mut iter = list.iter_mut();
    assert_eq!(iter.next(), Some(&mut -56));
    assert_eq!(iter.next(), Some(&mut 20));
    assert_eq!(iter.next(), Some(&mut 100));
}

#[test]
fn length_of_list() {
    let mut list = SinglyLinkedList::new();

    list.push(100);
    list.push(20);
    list.push(-56);
    assert_eq!(list.length(), 3);
}

#[test]
fn last_element_immutably() {
    let mut list = SinglyLinkedList::new();

    list.push(100);
    list.push(20);
    list.push(-56);
    assert_eq!(list.back(), Some(&100));

    let mut list = SinglyLinkedList::new();
    list.push(23);
    list.push(-49);
    assert_eq!(list.back(), Some(&23));
    assert_eq!(list.front(), Some(&-49));
}

#[test]
fn last_element_mutably() {
    let mut list = SinglyLinkedList::new();

    list.push(100);
    list.push(20);
    list.push(-56);
    assert_eq!(list.back_mut(), Some(&mut 100));

    list.back_mut().map(|node| *node = 780);
    assert_eq!(list.back(), Some(&780));
}

#[test]
fn collect_list_elements_into_vec() {
    let mut list = SinglyLinkedList::new();

    list.push(10);
    list.push(20);
    list.push(30);

    let mut elements: Vec<i32> = Vec::new();
    let mut iter = list.iter();
    while let Some(&member) = iter.next() {
        elements.push(member * 2);
    }

    assert_eq!(elements, vec![60, 40, 20]);
}

#[test]
fn collect_list_elements_into_another_list() {
    let mut source = SinglyLinkedList::new();

    source.push(10);
    source.push(20);
    source.push(30);

    let mut doubled: Vec<u32> = Vec::new();
    let mut source_iter = source.iter();
    while let Some(&member) = source_iter.next() {
        doubled.push(member * 2);
    }
    let dest: SinglyLinkedList<u32> = SinglyLinkedList::from_vec(doubled);

    let mut dest_iter = dest.iter();
    assert_eq!(dest_iter.next(), Some(&20));
    assert_eq!(dest_iter.next(), Some(&40));
    assert_eq!(dest_iter.next(), Some(&60));
}

#[test]
fn collect_list_elements_into_builtin_linked_list() {
    let mut source = SinglyLinkedList::new();

    source.push(10);
    source.push(20);
    source.push(30);

    let mut dest: LinkedList<u32> = LinkedList::new();
    let mut source_iter = source.iter();
    while let Some(&member) = source_iter.next() {
        dest.push_back(member * 2);
    }

    let mut dest_iter = dest.iter();
    assert_eq!(dest_iter.next(), Some(&60));
    assert_eq!(dest_iter.next(), Some(&40));
    assert_eq!(dest_iter.next(), Some(&20));
}

#[test]
fn make_list_from_an_iterator() {
    let produced: Vec<u32> = (10..15).collect();

    let list = SinglyLinkedList::from_vec(produced);

    let mut list_iter = list.iter();
    assert_eq!(list_iter.next(), Some(&14));
    assert_eq!(list_iter.next(), Some(&13));
    assert_eq!(list_iter.next(), Some(&12));
    assert_eq!(list_iter.next(), Some(&11));
    assert_eq!(list_iter.next(), Some(&10));
}
