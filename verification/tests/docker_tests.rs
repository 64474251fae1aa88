use winsweep::docker::{ContainerStatus, DockerClient};

#[test]
fn test_parse_container_status() {
    assert_eq!(DockerClient::parse_container_status("Up 2 hours"), ContainerStatus::Running);
    assert_eq!(
        DockerClient::parse_container_status("Exited (0) 2 hours ago"),
        ContainerStatus::Exited
    );
    assert_eq!(DockerClient::parse_container_status("Paused"), ContainerStatus::Paused);
}

#[test]
fn docker_executable_search_order() {
    assert_eq!(
        DockerClient::docker_executable(Some(r"C:\bin\docker.exe".to_string()), Some("/usr/bin/docker".to_string()), &[true, true]),
        Some(r"C:\bin\docker.exe".to_string())
    );
    assert_eq!(
        DockerClient::docker_executable(None, Some("/usr/bin/docker".to_string()), &[true, true]),
        Some("/usr/bin/docker".to_string())
    );
    assert_eq!(
        DockerClient::docker_executable(None, None, &[false, true]),
        Some(r"C:\Program Files\Docker\Docker\resources\bin\docker.exe".to_string())
    );
    assert_eq!(DockerClient::docker_executable(None, None, &[false, false]), None);
    assert_eq!(DockerClient::install_locations().len(), 2);
}
